//! Verified core of a command-line client for a website-monitoring HTTP API.
//!
//! The library turns optional command-line arguments into validated,
//! API-shaped parameter records, serializes them for each HTTP verb's wire
//! format (query pairs for GET/DELETE, a JSON body for POST/PUT), and
//! decodes JSON responses into success or failure envelopes.  All I/O
//! (argument collection, configuration files, the HTTP transport) lives
//! outside this crate and exchanges plain values with it.

pub mod numbers;
pub mod text;
pub mod json;
pub mod params;
pub mod validate;
pub mod downtime;
pub mod metric;
pub mod check;
pub mod client;
pub mod config;
