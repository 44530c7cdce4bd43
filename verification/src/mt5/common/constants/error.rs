//! General MT5 error codes, including the custom codes of MT5-ZeroMQ.

use vstd::prelude::*;

verus! {

pub const SUCCESS: i32 = 0;
pub const MARKET_UNKNOWN_SYMBOL: i32 = 4301;
pub const MARKET_WRONG_PROPERTY: i32 = 4303;
pub const TRADE_DISABLED: i32 = 4752;
pub const TRADE_POSITION_NOT_FOUND: i32 = 4753;
pub const TRADE_ORDER_NOT_FOUND: i32 = 4754;

pub const DESERIALIZATION: i32 = 65537;
pub const WRONG_ACTION: i32 = 65538;
pub const WRONG_ACTION_TYPE: i32 = 65539;
pub const WRONG_REQUEST_STRUCTURE: i32 = 65540;
pub const UNKNOWN_SYMBOL: i32 = 65541;
pub const ACCOUNT_HISTORY_ERROR: i32 = 65542;

} // verus!
