//! The decisions of the gateway's market data parsers: aggressor sides and
//! trade identifiers of historical ticks, and instrument identifiers of
//! contracts. Prices and volumes are converted in the application crate.

use vstd::prelude::*;

use crate::model::{AggressorSide, InstrumentId};
use crate::shioaji::common::consts::SINOPAC;
use crate::text::{concat2, decimal, push_decimal};

verus! {

/// The aggressor side of a gateway tick type: 1 is a buy (the buyer took
/// liquidity), 2 is a sell, anything else is unknown.
pub open spec fn spec_aggressor_from_tick_type(tick_type: i32) -> AggressorSide {
    if tick_type == 1 {
        AggressorSide::Buyer
    } else if tick_type == 2 {
        AggressorSide::Seller
    } else {
        AggressorSide::NoAggressor
    }
}

/// The aggressor side of a gateway tick type.
pub fn aggressor_from_tick_type(tick_type: i32) -> (a: AggressorSide)
    ensures
        a == spec_aggressor_from_tick_type(tick_type),
{
    if tick_type == 1 {
        AggressorSide::Buyer
    } else if tick_type == 2 {
        AggressorSide::Seller
    } else {
        AggressorSide::NoAggressor
    }
}

/// The trade identifier of a historical tick: `CODE-TS`.
pub fn tick_trade_id(code: &str, ts: u64) -> (id: String)
    ensures
        id@ == code@ + "-"@ + decimal(ts as nat),
{
    let mut id = concat2(code, "-");
    push_decimal(&mut id, ts);
    id
}

/// What a historical trade tick carries besides its price and size.
#[derive(Debug, Clone)]
pub struct TickFields {
    pub aggressor_side: AggressorSide,
    pub trade_id: String,
    pub ts_event: u64,
}

/// The aggressor sides, trade identifiers and event times of the ticks of a
/// ticks response, read from its parallel `ts` and `tick_type` arrays; there
/// is one tick per timestamp.
pub fn parse_tick_fields(code: &str, ts: &Vec<u64>, tick_type: &Vec<i32>) -> (r: Vec<TickFields>)
    requires
        tick_type@.len() >= ts@.len(),
    ensures
        r@.len() == ts@.len(),
        forall|i: int|
            0 <= i < r@.len() ==> {
                &&& (#[trigger] r@[i]).aggressor_side == spec_aggressor_from_tick_type(tick_type@[i])
                &&& r@[i].trade_id@ == code@ + "-"@ + decimal(ts@[i] as nat)
                &&& r@[i].ts_event == ts@[i]
            },
{
    let mut r: Vec<TickFields> = Vec::new();
    let mut i: usize = 0;
    while i < ts.len()
        invariant
            i <= ts@.len(),
            tick_type@.len() >= ts@.len(),
            r@.len() == i,
            forall|j: int|
                0 <= j < i ==> {
                    &&& (#[trigger] r@[j]).aggressor_side == spec_aggressor_from_tick_type(
                        tick_type@[j],
                    )
                    &&& r@[j].trade_id@ == code@ + "-"@ + decimal(ts@[j] as nat)
                    &&& r@[j].ts_event == ts@[j]
                },
        decreases ts@.len() - i,
    {
        r.push(
            TickFields {
                aggressor_side: aggressor_from_tick_type(tick_type[i]),
                trade_id: tick_trade_id(code, ts[i]),
                ts_event: ts[i],
            },
        );
        i = i + 1;
    }
    r
}

/// The instrument identifier of a gateway contract: its code on the
/// `SINOPAC` venue.
pub fn contract_instrument_id(code: &str) -> (id: InstrumentId)
    ensures
        id.symbol@ == code@,
        id.venue@ == SINOPAC@,
{
    InstrumentId::new(code, SINOPAC)
}

} // verus!
