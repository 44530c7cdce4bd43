//! Sinopac adapter: talks to the Sinopac (Shioaji) gateway over HTTP and
//! WebSocket and maps Taiwan stock, futures and options contracts.

pub mod common;
pub mod http;
pub mod websocket;
