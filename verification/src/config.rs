//! The client's persisted configuration: the API key, the optional
//! read-only key and the optional user agent.  Loading and storing it are
//! I/O and live outside this crate; this module only models the value and
//! turns it into a client.

use vstd::prelude::*;

verus! {

use crate::client::Client;

/// A minimal configuration for the client.
pub struct Config {
    pub api_key: String,
    pub private_api_key: Option<String>,
    pub user_agent: Option<String>,
}

impl Config {
    /// The client this configuration describes.
    pub fn client(self) -> (r: Client)
        ensures
            r.api_key@ == self.api_key@,
            r.read_only_api_key@ == (match self.private_api_key {
                Some(k) => k@,
                None => Seq::<char>::empty(),
            }),
            r.user_agent@ == (match self.user_agent {
                Some(u) => u@,
                None => Seq::<char>::empty(),
            }),
    {
        Client::new(self.api_key.as_str(), self.private_api_key, self.user_agent)
    }
}

} // verus!
