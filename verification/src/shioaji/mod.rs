//! Shioaji adapter: talks to the Shioaji FastAPI gateway over HTTP and
//! WebSocket.

pub mod common;
pub mod http;
pub mod websocket;
