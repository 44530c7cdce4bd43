//! The gateway's HTTP API: request and response shapes and the client's URL
//! and status handling.

pub mod client;
pub mod error;
pub mod models;
pub mod parse;
pub mod query;
