//! MetaTrader 5 adapter: talks to the MT5-ZeroMQ bridge (JsonAPI.mq5).

pub mod common;
pub mod test_data;
pub mod websocket;
