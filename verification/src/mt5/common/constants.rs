//! MT5 constants: trade return codes and error codes, with their meaning.
//!
//! The codes come from the MT5 API documentation and the MT5-ZeroMQ
//! JsonAPI.mq5 implementation.

pub mod error;
pub mod retcode;

use vstd::prelude::*;

verus! {

/// The trade return codes that MT5 documents (all others are unknown).
pub open spec fn is_known_retcode(code: i32) -> bool {
    (10004 <= code <= 10044) && code != 10005 && code != 10037
}

/// The human-readable description of a trade return code.
pub open spec fn spec_retcode_description(code: i32) -> Seq<char> {
    if code == retcode::REQUOTE {
        "Requote"@
    } else if code == retcode::REJECT {
        "Request rejected"@
    } else if code == retcode::CANCEL {
        "Request canceled"@
    } else if code == retcode::PLACED {
        "Order placed"@
    } else if code == retcode::DONE {
        "Request completed"@
    } else if code == retcode::DONE_PARTIAL {
        "Request completed partially"@
    } else if code == retcode::ERROR {
        "Request processing error"@
    } else if code == retcode::TIMEOUT {
        "Request canceled by timeout"@
    } else if code == retcode::INVALID {
        "Invalid request"@
    } else if code == retcode::INVALID_VOLUME {
        "Invalid volume"@
    } else if code == retcode::INVALID_PRICE {
        "Invalid price"@
    } else if code == retcode::INVALID_STOPS {
        "Invalid stops"@
    } else if code == retcode::TRADE_DISABLED {
        "Trade disabled"@
    } else if code == retcode::MARKET_CLOSED {
        "Market closed"@
    } else if code == retcode::NO_MONEY {
        "Not enough money"@
    } else if code == retcode::PRICE_CHANGED {
        "Price changed"@
    } else if code == retcode::PRICE_OFF {
        "No prices"@
    } else if code == retcode::INVALID_EXPIRATION {
        "Invalid expiration"@
    } else if code == retcode::ORDER_CHANGED {
        "Order state changed"@
    } else if code == retcode::TOO_MANY_REQUESTS {
        "Too many requests"@
    } else if code == retcode::NO_CHANGES {
        "No changes"@
    } else if code == retcode::SERVER_DISABLES_AT {
        "Autotrading disabled by server"@
    } else if code == retcode::CLIENT_DISABLES_AT {
        "Autotrading disabled by client"@
    } else if code == retcode::LOCKED {
        "Request locked"@
    } else if code == retcode::FROZEN {
        "Order or position frozen"@
    } else if code == retcode::INVALID_FILL {
        "Invalid fill type"@
    } else if code == retcode::CONNECTION {
        "No connection"@
    } else if code == retcode::ONLY_REAL {
        "Only real accounts allowed"@
    } else if code == retcode::LIMIT_ORDERS {
        "Orders limit reached"@
    } else if code == retcode::LIMIT_VOLUME {
        "Volume limit reached"@
    } else if code == retcode::INVALID_ORDER {
        "Invalid or prohibited order type"@
    } else if code == retcode::POSITION_CLOSED {
        "Position already closed"@
    } else if code == retcode::INVALID_CLOSE_VOLUME {
        "Invalid close volume"@
    } else if code == retcode::CLOSE_ORDER_EXIST {
        "Close order already exists"@
    } else if code == retcode::LIMIT_POSITIONS {
        "Positions limit reached"@
    } else if code == retcode::REJECT_CANCEL {
        "Reject cancel"@
    } else if code == retcode::LONG_ONLY {
        "Long only"@
    } else if code == retcode::SHORT_ONLY {
        "Short only"@
    } else if code == retcode::CLOSE_ONLY {
        "Close only"@
    } else {
        "Unknown retcode"@
    }
}

/// Get the human-readable description of an MT5 trade return code.
pub fn retcode_description(code: i32) -> (desc: &'static str)
    ensures
        desc@ == spec_retcode_description(code),
{
    if code == retcode::REQUOTE {
        "Requote"
    } else if code == retcode::REJECT {
        "Request rejected"
    } else if code == retcode::CANCEL {
        "Request canceled"
    } else if code == retcode::PLACED {
        "Order placed"
    } else if code == retcode::DONE {
        "Request completed"
    } else if code == retcode::DONE_PARTIAL {
        "Request completed partially"
    } else if code == retcode::ERROR {
        "Request processing error"
    } else if code == retcode::TIMEOUT {
        "Request canceled by timeout"
    } else if code == retcode::INVALID {
        "Invalid request"
    } else if code == retcode::INVALID_VOLUME {
        "Invalid volume"
    } else if code == retcode::INVALID_PRICE {
        "Invalid price"
    } else if code == retcode::INVALID_STOPS {
        "Invalid stops"
    } else if code == retcode::TRADE_DISABLED {
        "Trade disabled"
    } else if code == retcode::MARKET_CLOSED {
        "Market closed"
    } else if code == retcode::NO_MONEY {
        "Not enough money"
    } else if code == retcode::PRICE_CHANGED {
        "Price changed"
    } else if code == retcode::PRICE_OFF {
        "No prices"
    } else if code == retcode::INVALID_EXPIRATION {
        "Invalid expiration"
    } else if code == retcode::ORDER_CHANGED {
        "Order state changed"
    } else if code == retcode::TOO_MANY_REQUESTS {
        "Too many requests"
    } else if code == retcode::NO_CHANGES {
        "No changes"
    } else if code == retcode::SERVER_DISABLES_AT {
        "Autotrading disabled by server"
    } else if code == retcode::CLIENT_DISABLES_AT {
        "Autotrading disabled by client"
    } else if code == retcode::LOCKED {
        "Request locked"
    } else if code == retcode::FROZEN {
        "Order or position frozen"
    } else if code == retcode::INVALID_FILL {
        "Invalid fill type"
    } else if code == retcode::CONNECTION {
        "No connection"
    } else if code == retcode::ONLY_REAL {
        "Only real accounts allowed"
    } else if code == retcode::LIMIT_ORDERS {
        "Orders limit reached"
    } else if code == retcode::LIMIT_VOLUME {
        "Volume limit reached"
    } else if code == retcode::INVALID_ORDER {
        "Invalid or prohibited order type"
    } else if code == retcode::POSITION_CLOSED {
        "Position already closed"
    } else if code == retcode::INVALID_CLOSE_VOLUME {
        "Invalid close volume"
    } else if code == retcode::CLOSE_ORDER_EXIST {
        "Close order already exists"
    } else if code == retcode::LIMIT_POSITIONS {
        "Positions limit reached"
    } else if code == retcode::REJECT_CANCEL {
        "Reject cancel"
    } else if code == retcode::LONG_ONLY {
        "Long only"
    } else if code == retcode::SHORT_ONLY {
        "Short only"
    } else if code == retcode::CLOSE_ONLY {
        "Close only"
    } else {
        "Unknown retcode"
    }
}

/// The return codes that report a completed or placed request.
pub open spec fn spec_is_success(code: i32) -> bool {
    code == retcode::DONE || code == retcode::DONE_PARTIAL || code == retcode::PLACED
}

/// The return codes that report a rejected or failed request: every code
/// that is neither a success nor one of the retryable codes (requote,
/// price changed).
pub open spec fn spec_is_rejection(code: i32) -> bool {
    !spec_is_success(code) && code != retcode::REQUOTE && code != retcode::PRICE_CHANGED
}

/// Check if a return code indicates success.
pub fn is_success(code: i32) -> (b: bool)
    ensures
        b == spec_is_success(code),
{
    code == retcode::DONE || code == retcode::DONE_PARTIAL || code == retcode::PLACED
}

/// Check if a return code indicates rejection or failure.
pub fn is_rejection(code: i32) -> (b: bool)
    ensures
        b == spec_is_rejection(code),
{
    !is_success(code) && code != retcode::REQUOTE && code != retcode::PRICE_CHANGED
}

/// Every return code is exactly one of: a success, a rejection, or one of
/// the two retryable codes (requote, price changed).
pub proof fn lemma_retcode_classes_partition(code: i32)
    ensures
        spec_is_success(code) ==> !spec_is_rejection(code),
        spec_is_rejection(code) ==> !spec_is_success(code),
        !spec_is_success(code) && !spec_is_rejection(code) <==> (code == retcode::REQUOTE
            || code == retcode::PRICE_CHANGED),
{
}

/// A return code has its own description exactly when MT5 documents it;
/// every other code is described as unknown.
pub proof fn lemma_retcode_description_known(code: i32)
    ensures
        is_known_retcode(code) <==> (
            code == retcode::REQUOTE || code == retcode::REJECT || code == retcode::CANCEL ||
            code == retcode::PLACED || code == retcode::DONE || code == retcode::DONE_PARTIAL ||
            code == retcode::ERROR || code == retcode::TIMEOUT || code == retcode::INVALID ||
            code == retcode::INVALID_VOLUME || code == retcode::INVALID_PRICE ||
            code == retcode::INVALID_STOPS || code == retcode::TRADE_DISABLED ||
            code == retcode::MARKET_CLOSED || code == retcode::NO_MONEY ||
            code == retcode::PRICE_CHANGED || code == retcode::PRICE_OFF ||
            code == retcode::INVALID_EXPIRATION || code == retcode::ORDER_CHANGED ||
            code == retcode::TOO_MANY_REQUESTS || code == retcode::NO_CHANGES ||
            code == retcode::SERVER_DISABLES_AT || code == retcode::CLIENT_DISABLES_AT ||
            code == retcode::LOCKED || code == retcode::FROZEN || code == retcode::INVALID_FILL ||
            code == retcode::CONNECTION || code == retcode::ONLY_REAL ||
            code == retcode::LIMIT_ORDERS || code == retcode::LIMIT_VOLUME ||
            code == retcode::INVALID_ORDER || code == retcode::POSITION_CLOSED ||
            code == retcode::INVALID_CLOSE_VOLUME || code == retcode::CLOSE_ORDER_EXIST ||
            code == retcode::LIMIT_POSITIONS || code == retcode::REJECT_CANCEL ||
            code == retcode::LONG_ONLY || code == retcode::SHORT_ONLY ||
            code == retcode::CLOSE_ONLY
        ),
        !is_known_retcode(code) ==> spec_retcode_description(code) == "Unknown retcode"@,
{
}

/// A short key of a description text: its length, its first character and
/// its third character from the end. The descriptions of the return codes
/// all have different keys.
pub open spec fn description_key(d: Seq<char>) -> (int, char, char) {
    (d.len() as int, d[0], d[d.len() - 3])
}

/// The return code whose description has the given key (0 for none).
pub open spec fn retcode_of_description_key(k: (int, char, char)) -> i32 {
    if k == (7int, 'R', 'o') {
        retcode::REQUOTE
    } else if k == (16int, 'R', 't') {
        retcode::REJECT
    } else if k == (16int, 'R', 'l') {
        retcode::CANCEL
    } else if k == (12int, 'O', 'c') {
        retcode::PLACED
    } else if k == (17int, 'R', 't') {
        retcode::DONE
    } else if k == (27int, 'R', 'l') {
        retcode::DONE_PARTIAL
    } else if k == (24int, 'R', 'r') {
        retcode::ERROR
    } else if k == (27int, 'R', 'o') {
        retcode::TIMEOUT
    } else if k == (15int, 'I', 'e') {
        retcode::INVALID
    } else if k == (14int, 'I', 'u') {
        retcode::INVALID_VOLUME
    } else if k == (13int, 'I', 'i') {
        retcode::INVALID_PRICE
    } else if k == (13int, 'I', 'o') {
        retcode::INVALID_STOPS
    } else if k == (14int, 'T', 'l') {
        retcode::TRADE_DISABLED
    } else if k == (13int, 'M', 's') {
        retcode::MARKET_CLOSED
    } else if k == (16int, 'N', 'n') {
        retcode::NO_MONEY
    } else if k == (13int, 'P', 'g') {
        retcode::PRICE_CHANGED
    } else if k == (9int, 'N', 'c') {
        retcode::PRICE_OFF
    } else if k == (18int, 'I', 'i') {
        retcode::INVALID_EXPIRATION
    } else if k == (19int, 'O', 'g') {
        retcode::ORDER_CHANGED
    } else if k == (17int, 'T', 's') {
        retcode::TOO_MANY_REQUESTS
    } else if k == (10int, 'N', 'g') {
        retcode::NO_CHANGES
    } else if k == (30int, 'A', 'v') {
        retcode::SERVER_DISABLES_AT
    } else if k == (30int, 'A', 'e') {
        retcode::CLIENT_DISABLES_AT
    } else if k == (14int, 'R', 'k') {
        retcode::LOCKED
    } else if k == (24int, 'O', 'z') {
        retcode::FROZEN
    } else if k == (17int, 'I', 'y') {
        retcode::INVALID_FILL
    } else if k == (13int, 'N', 'i') {
        retcode::CONNECTION
    } else if k == (26int, 'O', 'w') {
        retcode::ONLY_REAL
    } else if k == (20int, 'O', 'h') {
        retcode::LIMIT_ORDERS
    } else if k == (20int, 'V', 'h') {
        retcode::LIMIT_VOLUME
    } else if k == (32int, 'I', 'y') {
        retcode::INVALID_ORDER
    } else if k == (23int, 'P', 's') {
        retcode::POSITION_CLOSED
    } else if k == (20int, 'I', 'u') {
        retcode::INVALID_CLOSE_VOLUME
    } else if k == (26int, 'C', 's') {
        retcode::CLOSE_ORDER_EXIST
    } else if k == (23int, 'P', 'h') {
        retcode::LIMIT_POSITIONS
    } else if k == (13int, 'R', 'c') {
        retcode::REJECT_CANCEL
    } else if k == (9int, 'L', 'n') {
        retcode::LONG_ONLY
    } else if k == (10int, 'S', 'n') {
        retcode::SHORT_ONLY
    } else if k == (10int, 'C', 'n') {
        retcode::CLOSE_ONLY
    } else {
        0
    }
}

proof fn lemma_retcode_description_key(code: i32)
    requires
        is_known_retcode(code),
    ensures
        retcode_of_description_key(description_key(spec_retcode_description(code))) == code,
{
    if code == retcode::REQUOTE {
        reveal_strlit("Requote");
    } else if code == retcode::REJECT {
        reveal_strlit("Request rejected");
    } else if code == retcode::CANCEL {
        reveal_strlit("Request canceled");
    } else if code == retcode::PLACED {
        reveal_strlit("Order placed");
    } else if code == retcode::DONE {
        reveal_strlit("Request completed");
    } else if code == retcode::DONE_PARTIAL {
        reveal_strlit("Request completed partially");
    } else if code == retcode::ERROR {
        reveal_strlit("Request processing error");
    } else if code == retcode::TIMEOUT {
        reveal_strlit("Request canceled by timeout");
    } else if code == retcode::INVALID {
        reveal_strlit("Invalid request");
    } else if code == retcode::INVALID_VOLUME {
        reveal_strlit("Invalid volume");
    } else if code == retcode::INVALID_PRICE {
        reveal_strlit("Invalid price");
    } else if code == retcode::INVALID_STOPS {
        reveal_strlit("Invalid stops");
    } else if code == retcode::TRADE_DISABLED {
        reveal_strlit("Trade disabled");
    } else if code == retcode::MARKET_CLOSED {
        reveal_strlit("Market closed");
    } else if code == retcode::NO_MONEY {
        reveal_strlit("Not enough money");
    } else if code == retcode::PRICE_CHANGED {
        reveal_strlit("Price changed");
    } else if code == retcode::PRICE_OFF {
        reveal_strlit("No prices");
    } else if code == retcode::INVALID_EXPIRATION {
        reveal_strlit("Invalid expiration");
    } else if code == retcode::ORDER_CHANGED {
        reveal_strlit("Order state changed");
    } else if code == retcode::TOO_MANY_REQUESTS {
        reveal_strlit("Too many requests");
    } else if code == retcode::NO_CHANGES {
        reveal_strlit("No changes");
    } else if code == retcode::SERVER_DISABLES_AT {
        reveal_strlit("Autotrading disabled by server");
    } else if code == retcode::CLIENT_DISABLES_AT {
        reveal_strlit("Autotrading disabled by client");
    } else if code == retcode::LOCKED {
        reveal_strlit("Request locked");
    } else if code == retcode::FROZEN {
        reveal_strlit("Order or position frozen");
    } else if code == retcode::INVALID_FILL {
        reveal_strlit("Invalid fill type");
    } else if code == retcode::CONNECTION {
        reveal_strlit("No connection");
    } else if code == retcode::ONLY_REAL {
        reveal_strlit("Only real accounts allowed");
    } else if code == retcode::LIMIT_ORDERS {
        reveal_strlit("Orders limit reached");
    } else if code == retcode::LIMIT_VOLUME {
        reveal_strlit("Volume limit reached");
    } else if code == retcode::INVALID_ORDER {
        reveal_strlit("Invalid or prohibited order type");
    } else if code == retcode::POSITION_CLOSED {
        reveal_strlit("Position already closed");
    } else if code == retcode::INVALID_CLOSE_VOLUME {
        reveal_strlit("Invalid close volume");
    } else if code == retcode::CLOSE_ORDER_EXIST {
        reveal_strlit("Close order already exists");
    } else if code == retcode::LIMIT_POSITIONS {
        reveal_strlit("Positions limit reached");
    } else if code == retcode::REJECT_CANCEL {
        reveal_strlit("Reject cancel");
    } else if code == retcode::LONG_ONLY {
        reveal_strlit("Long only");
    } else if code == retcode::SHORT_ONLY {
        reveal_strlit("Short only");
    } else if code == retcode::CLOSE_ONLY {
        reveal_strlit("Close only");
    }
}

/// Each known return code has a description of its own: distinct known
/// codes are described differently, and none is described as unknown.
pub proof fn lemma_retcode_descriptions_distinct(a: i32, b: i32)
    requires
        is_known_retcode(a),
        is_known_retcode(b),
    ensures
        spec_retcode_description(a) != "Unknown retcode"@,
        a != b ==> spec_retcode_description(a) != spec_retcode_description(b),
{
    lemma_retcode_description_key(a);
    lemma_retcode_description_key(b);
    reveal_strlit("Unknown retcode");
    assert(retcode_of_description_key(description_key("Unknown retcode"@)) == 0);
}

/// The successful return codes are the three consecutive codes 10008 to
/// 10010, the ones described as a placed order or a completed request; all
/// other codes but requote (10004) and price changed (10020) are
/// rejections, market closed (10018) among them.
pub proof fn lemma_success_codes(code: i32)
    ensures
        spec_is_success(code) <==> 10008 <= code <= 10010,
        spec_is_success(code) <==> (spec_retcode_description(code) == "Order placed"@
            || spec_retcode_description(code) == "Request completed"@
            || spec_retcode_description(code) == "Request completed partially"@),
        spec_is_rejection(code) <==> !(10008 <= code <= 10010) && code != 10004 && code != 10020,
{
    reveal_strlit("Order placed");
    reveal_strlit("Request completed");
    reveal_strlit("Request completed partially");
    reveal_strlit("Unknown retcode");
    if is_known_retcode(code) {
        lemma_retcode_descriptions_distinct(code, retcode::PLACED);
        lemma_retcode_descriptions_distinct(code, retcode::DONE);
        lemma_retcode_descriptions_distinct(code, retcode::DONE_PARTIAL);
    } else {
        lemma_retcode_description_known(code);
        assert("Unknown retcode"@[0] != "Order placed"@[0]);
        assert("Unknown retcode"@[0] != "Request completed"@[0]);
        assert("Unknown retcode"@[0] != "Request completed partially"@[0]);
    }
}

} // verus!
