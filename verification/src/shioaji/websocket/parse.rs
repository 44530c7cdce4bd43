//! The decisions of the live tick and quote parsers.

use vstd::prelude::*;

use crate::model::AggressorSide;
use crate::text::{concat2, concat3};

verus! {

/// The aggressor side of a live tick: stock ticks carry a tick type (1 buy,
/// 2 sell); futures and options ticks carry none and have no aggressor.
pub open spec fn spec_aggressor_from_optional_tick_type(tick_type: Option<i32>) -> AggressorSide {
    match tick_type {
        Some(1) => AggressorSide::Buyer,
        Some(2) => AggressorSide::Seller,
        _ => AggressorSide::NoAggressor,
    }
}

/// The aggressor side of a live tick.
pub fn aggressor_from_optional_tick_type(tick_type: Option<i32>) -> (a: AggressorSide)
    ensures
        a == spec_aggressor_from_optional_tick_type(tick_type),
{
    match tick_type {
        Some(1) => AggressorSide::Buyer,
        Some(2) => AggressorSide::Seller,
        _ => AggressorSide::NoAggressor,
    }
}

/// The trade identifier of a live tick: `CODE-TIMESTAMP`.
pub fn live_trade_id(code: &str, timestamp: &str) -> (id: String)
    ensures
        id@ == code@ + "-"@ + timestamp@,
{
    concat3(code, "-", timestamp)
}

/// Checks that a bid/ask message has a top of book: both price ladders must
/// be non-empty. The volumes of the top level are read too, so the volume
/// ladders must be non-empty wherever the price ladders are.
pub fn check_top_of_book(code: &str, bid_price_len: usize, ask_price_len: usize, bid_volume_len: usize, ask_volume_len: usize) -> (r: Result<(), String>)
    requires
        bid_price_len > 0 && ask_price_len > 0 ==> bid_volume_len > 0 && ask_volume_len > 0,
    ensures
        r is Ok <==> bid_price_len > 0 && ask_price_len > 0,
        r matches Err(m) ==> m@ == "Empty bid/ask price arrays for "@ + code@,
{
    if bid_price_len == 0 || ask_price_len == 0 {
        Err(concat2("Empty bid/ask price arrays for ", code))
    } else {
        Ok(())
    }
}

} // verus!
