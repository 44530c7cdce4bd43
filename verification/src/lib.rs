//! Verified core of the MetaTrader 5, Shioaji and Sinopac trading adapters.
//!
//! The library holds the decision logic of the adapters: return-code tables,
//! venue enumerations, message routing, identifier and URL construction, and
//! the state machines that drive the gateway connections. Network, ZeroMQ,
//! Python and JSON plumbing live in the application crate around it.

pub mod json;
pub mod model;
pub mod mt5;
pub mod shioaji;
pub mod sinopac;
pub mod text;
