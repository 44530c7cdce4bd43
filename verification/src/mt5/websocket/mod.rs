//! Connection logic for the MT5-ZeroMQ bridge.
//!
//! The module keeps the name "websocket" that the other adapters use, though
//! MT5 speaks ZeroMQ: a REQ socket for commands and PULL sockets for command
//! responses, live market data and trade events.

pub mod client;
pub mod messages;
pub mod parse;
pub mod registry;
