//! Gateway HTTP request and response shapes without prices or volumes.
//! The shapes that carry prices live with the JSON decoding in the
//! application crate.

use vstd::prelude::*;

verus! {

/// Log-in request.
#[derive(Debug, Clone)]
pub struct LoginRequest {
    pub api_key: String,
    pub secret_key: String,
    pub ca_path: Option<String>,
    pub ca_passwd: Option<String>,
    pub simulation: bool,
}

/// Log-in response: the accounts of the user.
#[derive(Debug, Clone)]
pub struct LoginResponse {
    pub accounts: Vec<AccountInfo>,
}

/// One account of the user.
#[derive(Debug, Clone)]
pub struct AccountInfo {
    pub account_type: String,
    pub account_id: String,
}

/// Gateway status.
#[derive(Debug, Clone, Copy, PartialEq, Eq)]
pub struct StatusResponse {
    pub connected: bool,
    pub simulation: bool,
}

/// A response that only reports a status.
#[derive(Debug, Clone)]
pub struct MessageResponse {
    pub status: String,
}

/// A response that reports a status and a trade identifier.
#[derive(Debug, Clone)]
pub struct TradeIdResponse {
    pub status: String,
    pub trade_id: String,
}

/// Request to cancel an order.
#[derive(Debug, Clone)]
pub struct CancelOrderRequest {
    pub trade_id: String,
}

/// Response to an order placement.
#[derive(Debug, Clone)]
pub struct PlaceOrderResponse {
    pub trade_id: String,
    pub code: String,
    pub action: String,
    pub status: String,
}

} // verus!
