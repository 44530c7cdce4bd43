//! MT5 trade return codes, as returned by trade operations.

use vstd::prelude::*;

verus! {

pub const REQUOTE: i32 = 10004;
pub const REJECT: i32 = 10006;
pub const CANCEL: i32 = 10007;
pub const PLACED: i32 = 10008;
pub const DONE: i32 = 10009;
pub const DONE_PARTIAL: i32 = 10010;
pub const ERROR: i32 = 10011;
pub const TIMEOUT: i32 = 10012;
pub const INVALID: i32 = 10013;
pub const INVALID_VOLUME: i32 = 10014;
pub const INVALID_PRICE: i32 = 10015;
pub const INVALID_STOPS: i32 = 10016;
pub const TRADE_DISABLED: i32 = 10017;
pub const MARKET_CLOSED: i32 = 10018;
pub const NO_MONEY: i32 = 10019;
pub const PRICE_CHANGED: i32 = 10020;
pub const PRICE_OFF: i32 = 10021;
pub const INVALID_EXPIRATION: i32 = 10022;
pub const ORDER_CHANGED: i32 = 10023;
pub const TOO_MANY_REQUESTS: i32 = 10024;
pub const NO_CHANGES: i32 = 10025;
pub const SERVER_DISABLES_AT: i32 = 10026;
pub const CLIENT_DISABLES_AT: i32 = 10027;
pub const LOCKED: i32 = 10028;
pub const FROZEN: i32 = 10029;
pub const INVALID_FILL: i32 = 10030;
pub const CONNECTION: i32 = 10031;
pub const ONLY_REAL: i32 = 10032;
pub const LIMIT_ORDERS: i32 = 10033;
pub const LIMIT_VOLUME: i32 = 10034;
pub const INVALID_ORDER: i32 = 10035;
pub const POSITION_CLOSED: i32 = 10036;
pub const INVALID_CLOSE_VOLUME: i32 = 10038;
pub const CLOSE_ORDER_EXIST: i32 = 10039;
pub const LIMIT_POSITIONS: i32 = 10040;
pub const REJECT_CANCEL: i32 = 10041;
pub const LONG_ONLY: i32 = 10042;
pub const SHORT_ONLY: i32 = 10043;
pub const CLOSE_ONLY: i32 = 10044;

} // verus!
