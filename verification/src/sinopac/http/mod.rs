//! The gateway's HTTP API: its request and response shapes, and how
//! contracts become instruments.

pub mod models;
pub mod parse;
