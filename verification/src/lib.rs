//! Core logic of a small HTTPS web service and its command-line client:
//! the error types and the text they render to, request identifiers and
//! timestamps, the settings a client resolves from its arguments and
//! environment, and the decisions a server makes on requests, static files
//! and its TLS setup.

pub mod text;
pub mod shared;
pub mod server_api;
pub mod client;
pub mod server;
pub mod tracer;
