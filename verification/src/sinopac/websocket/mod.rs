//! The gateway's WebSocket stream: messages, subscriptions and the feed's
//! decisions.

pub mod client;
pub mod error;
pub mod handler;
pub mod messages;
pub mod order_parse;
