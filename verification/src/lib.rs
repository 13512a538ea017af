//! Verified core of a deployment node for an OpenPLC runtime: reading the
//! node's settings, talking the runtime's REST API (the decisions on each
//! answer), and sequencing a deployment.
pub mod client;
pub mod config;
pub mod deploy;
pub mod error;
pub mod http;
pub mod responses;
pub mod state;
pub mod text;
