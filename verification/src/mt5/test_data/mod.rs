//! Sample messages of the MT5-ZeroMQ bridge, as the tests read them: one
//! live tick, one live one-minute bar and one account answer.

use vstd::prelude::*;

verus! {

/// A live tick of `BTCUSD`: `data` is `[timestamp_ms, bid, ask]`.
pub const WS_TICK_SINGLE: &'static str = "{\"status\": \"CONNECTED\", \"symbol\": \"BTCUSD\", \"timeframe\": \"TICK\", \"data\": [1764162271192, 86835.0, 86879.0]}";

/// A live one-minute bar of `XAUUSD.sml`: `data` is
/// `[timestamp_sec, open, high, low, close, volume]`.
pub const WS_BAR_M1_SINGLE: &'static str = "{\"status\": \"CONNECTED\", \"symbol\": \"XAUUSD.sml\", \"timeframe\": \"M1\", \"data\": [1764162180, 4159.0, 4160.0, 4158.5, 4159.5, 105.0]}";

/// The answer to an `ACCOUNT` request.
pub const HTTP_GET_ACCOUNT: &'static str = "{\"error\": false, \"broker\": \"Demo Broker\", \"currency\": \"USD\", \"server\": \"Demo-Server\", \"trading_allowed\": 1, \"bot_trading\": 1, \"balance\": 10000.0, \"equity\": 10000.0, \"margin\": 0.0, \"margin_free\": 10000.0, \"margin_level\": 0.0}";

} // verus!
