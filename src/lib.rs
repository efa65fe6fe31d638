//! Resilient transport core of a client for a dashboard service's HTTP API:
//! retry policy, failure classification, redaction of diagnostic snippets,
//! endpoint URL building and credential headers.

pub mod auth;
pub mod client;
pub mod error;
pub mod headers;
pub mod json;
pub mod redact;
pub mod response;
pub mod retry;
pub mod text;
pub mod transport;
pub mod url;
pub mod types;
