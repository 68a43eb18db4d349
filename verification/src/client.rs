//! The API entry point: a client holds the credential material, and for each
//! endpoint builds the outgoing request — method, path relative to the API
//! root, query pairs and body.  The transport that sends it lives outside
//! this crate.

use vstd::prelude::*;

verus! {

use crate::check::CheckParams;
use crate::downtime::DowntimeParams;
use crate::json::{json_model, parse_json, spec_str_entries, obj_model, Json, JsonSpec, DecodeError};
use crate::metric::MetricsParams;
use crate::params::pairs_model;

/// The HTTP method of a request.
pub enum Method {
    Get,
    Post,
    Put,
    Delete,
}

/// One outgoing request, ready for the transport: the path is relative to
/// the API root, the query pairs are emitted in order, and the body, when
/// present, is the exact text to send.
pub struct HttpRequest {
    pub method: Method,
    pub path: String,
    pub query: Vec<(String, String)>,
    pub body: Option<String>,
}

/// Holds the user's API keys and builds one request per endpoint.
pub struct Client {
    pub api_key: String,
    pub read_only_api_key: String,
    pub user_agent: String,
}

impl Client {
    /// A client for the given credential; the optional keys default to
    /// empty.
    pub fn new(api_key: &str, private_api_key: Option<String>, user_agent: Option<String>) -> (r:
        Client)
        ensures
            r.api_key@ == api_key@,
            r.read_only_api_key@ == (match private_api_key {
                Some(k) => k@,
                None => Seq::<char>::empty(),
            }),
            r.user_agent@ == (match user_agent {
                Some(u) => u@,
                None => Seq::<char>::empty(),
            }),
    {
        let read_only_api_key = match private_api_key {
            Some(k) => k,
            None => String::new(),
        };
        let user_agent = match user_agent {
            Some(u) => u,
            None => String::new(),
        };
        Client { api_key: api_key.to_owned(), read_only_api_key, user_agent }
    }

    /// The request listing all checks.
    pub fn all_request(&self) -> (r: HttpRequest)
        ensures
            r.method is Get,
            r.path@ == "checks"@,
            pairs_model(r.query@) == seq![("api-key"@, self.api_key@)],
            r.body is None,
    {
        let mut query: Vec<(String, String)> = Vec::new();
        query.push(("api-key".to_owned(), self.api_key.clone()));
        proof {
            assert(pairs_model(query@) =~= seq![("api-key"@, self.api_key@)]);
        }
        HttpRequest { method: Method::Get, path: String::from_str("checks"), query, body: None }
    }

    /// The request fetching one check, optionally with its metrics.
    pub fn check_request(&self, token: &str, metrics: bool) -> (r: HttpRequest)
        ensures
            r.method is Get,
            r.path@ == "checks/"@ + token@,
            pairs_model(r.query@) == seq![("api-key"@, self.api_key@)] + (if metrics {
                seq![("metrics"@, "true"@)]
            } else {
                Seq::empty()
            }),
            r.body is None,
    {
        let mut query: Vec<(String, String)> = Vec::new();
        query.push(("api-key".to_owned(), self.api_key.clone()));
        if metrics {
            query.push(("metrics".to_owned(), "true".to_owned()));
        }
        proof {
            assert(pairs_model(query@) =~= seq![("api-key"@, self.api_key@)] + (if metrics {
                seq![("metrics"@, "true"@)]
            } else {
                Seq::empty()
            }));
        }
        HttpRequest {
            method: Method::Get,
            path: String::from_str("checks/").concat(token),
            query,
            body: None,
        }
    }

    /// The request listing a check's downtimes.
    pub fn downtimes_request(&self, params: &DowntimeParams) -> (r: HttpRequest)
        ensures
            r.method is Get,
            r.path@ == "checks/"@ + params.token@ + "/downtimes"@,
            pairs_model(r.query@) == params.query_model(),
            r.body is None,
    {
        HttpRequest {
            method: Method::Get,
            path: String::from_str("checks/").concat(params.token.as_str()).concat("/downtimes"),
            query: params.to_query_pairs(),
            body: None,
        }
    }

    /// The request fetching a check's metrics.
    pub fn metrics_request(&self, params: &MetricsParams) -> (r: HttpRequest)
        ensures
            r.method is Get,
            r.path@ == "checks/"@ + params.token@ + "/metrics"@,
            pairs_model(r.query@) == params.query_model(),
            r.body is None,
    {
        HttpRequest {
            method: Method::Get,
            path: String::from_str("checks/").concat(params.token.as_str()).concat("/metrics"),
            query: params.to_query_pairs(),
            body: None,
        }
    }

    /// The request updating a check: the token goes into the path, the
    /// parameters into the JSON body.
    pub fn update_request(&self, params: &CheckParams) -> (r: HttpRequest)
        ensures
            r.method is Put,
            r.path@ == "checks/"@ + params.token@,
            r.query@.len() == 0,
            r.body matches Some(b) && b@ == crate::json::render_spec(
                JsonSpec::Obj(params.body_model()),
            ),
    {
        HttpRequest {
            method: Method::Put,
            path: String::from_str("checks/").concat(params.token.as_str()),
            query: Vec::new(),
            body: Some(params.body_string()),
        }
    }

    /// The request deleting a check.
    pub fn delete_request(&self, token: &str) -> (r: HttpRequest)
        ensures
            r.method is Delete,
            r.path@ == "checks/"@ + token@,
            pairs_model(r.query@) == seq![("api-key"@, self.api_key@)],
            r.body is None,
    {
        let mut query: Vec<(String, String)> = Vec::new();
        query.push(("api-key".to_owned(), self.api_key.clone()));
        proof {
            assert(pairs_model(query@) =~= seq![("api-key"@, self.api_key@)]);
        }
        HttpRequest {
            method: Method::Delete,
            path: String::from_str("checks/").concat(token),
            query,
            body: None,
        }
    }
}

/// Decodes a deletion response: a JSON object whose members are all
/// strings, as key/text pairs; anything else is malformed.
pub fn decode_delete(body: &str) -> (r: Result<Vec<(String, String)>, DecodeError>)
    ensures
        match json_model(body@) {
            None => r is Err,
            Some(j) => match j {
                JsonSpec::Obj(fs) => match spec_str_entries(fs) {
                    Some(es) => r matches Ok(v) && pairs_model(v@) == es,
                    None => r is Err,
                },
                _ => r is Err,
            },
        },
{
    match parse_json(body) {
        None => Err(DecodeError::MalformedResponse),
        Some(doc) => match doc {
            Json::Obj(fields) => {
                let ghost m = obj_model(fields@);
                let n = fields.len();
                let mut out: Vec<(String, String)> = Vec::new();
                let mut k: usize = 0;
                while k < n
                    invariant
                        0 <= k as int <= n as int,
                        n as nat == fields@.len(),
                        m == obj_model(fields@),
                        m.len() == fields@.len(),
                        json_model(body@) == Some(JsonSpec::Obj(m)),
                        out@.len() == k as nat,
                        forall|j: int| 0 <= j < k as int ==> (#[trigger] m[j]).1 is Str,
                        forall|j: int|
                            0 <= j < k as int ==> (#[trigger] out@[j]).0@ == m[j].0 && out@[
                                j
                            ].1@ == m[j].1->Str_0,
                    decreases n as int - k as int,
                {
                    match &fields[k].1 {
                        Json::Str(t) => {
                            out.push((fields[k].0.clone(), t.clone()));
                        },
                        _ => {
                            proof {
                                crate::json::lemma_str_entries_bad(m, k as int);
                            }
                            return Err(DecodeError::MalformedResponse);
                        },
                    }
                    k = k + 1;
                }
                proof {
                    crate::json::lemma_str_entries_all(m);
                    assert(pairs_model(out@) =~= spec_str_entries(m)->Some_0);
                }
                Ok(out)
            },
            _ => Err(DecodeError::MalformedResponse),
        },
    }
}

} // verus!
