//! The gateway's WebSocket stream: messages, the connection's decisions and
//! the parsers of live ticks and quotes.

pub mod client;
pub mod error;
pub mod handler;
pub mod messages;
pub mod parse;
