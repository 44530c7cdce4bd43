//! How order events are presented to the Python side: each event kind has a
//! type name, and order events and deal events carry different fields.

use vstd::prelude::*;

use crate::sinopac::common::enums::SinopacOrderEvent;
use crate::text::{seq_ends_with, seq_starts_with};

verus! {

impl SinopacOrderEvent {
    /// The `event_type` name under which the event is presented.
    pub open spec fn spec_event_type(self) -> Seq<char> {
        match self {
            SinopacOrderEvent::StockOrder => "stock_order"@,
            SinopacOrderEvent::StockDeal => "stock_deal"@,
            SinopacOrderEvent::FuturesOrder => "futures_order"@,
            SinopacOrderEvent::FuturesDeal => "futures_deal"@,
        }
    }

    /// The `event_type` name of the event: `stock_order`, `stock_deal`,
    /// `futures_order` or `futures_deal`.
    pub fn event_type(&self) -> (s: &'static str)
        ensures
            s@ == self.spec_event_type(),
    {
        match self {
            SinopacOrderEvent::StockOrder => "stock_order",
            SinopacOrderEvent::StockDeal => "stock_deal",
            SinopacOrderEvent::FuturesOrder => "futures_order",
            SinopacOrderEvent::FuturesDeal => "futures_deal",
        }
    }

    /// Whether the event reports a deal (a fill) rather than an order change.
    /// Deal events carry the fill's trade id, per-fill `seqno` and time; order
    /// events carry the operation and order status.
    pub fn is_deal(&self) -> (b: bool)
        ensures
            b == (*self == SinopacOrderEvent::StockDeal || *self == SinopacOrderEvent::FuturesDeal),
    {
        match self {
            SinopacOrderEvent::StockDeal | SinopacOrderEvent::FuturesDeal => true,
            _ => false,
        }
    }
}

/// The `event_type` of an event names its market and its kind: it starts
/// with `stock_` exactly for stock events and ends with `_deal` exactly for
/// deals (`is_deal`), so the four events have four different names.
pub proof fn lemma_event_type_names(e: SinopacOrderEvent)
    ensures
        seq_starts_with(e.spec_event_type(), "stock_"@) <==> (e == SinopacOrderEvent::StockOrder
            || e == SinopacOrderEvent::StockDeal),
        seq_starts_with(e.spec_event_type(), "futures_"@) <==> (e == SinopacOrderEvent::FuturesOrder
            || e == SinopacOrderEvent::FuturesDeal),
        seq_ends_with(e.spec_event_type(), "_deal"@) <==> (e == SinopacOrderEvent::StockDeal
            || e == SinopacOrderEvent::FuturesDeal),
        seq_ends_with(e.spec_event_type(), "_order"@) <==> (e == SinopacOrderEvent::StockOrder
            || e == SinopacOrderEvent::FuturesOrder),
{
    reveal_strlit("stock_order");
    reveal_strlit("stock_deal");
    reveal_strlit("futures_order");
    reveal_strlit("futures_deal");
    reveal_strlit("stock_");
    reveal_strlit("futures_");
    reveal_strlit("_deal");
    reveal_strlit("_order");
    let n = e.spec_event_type();
    match e {
        SinopacOrderEvent::StockOrder => {
            assert(n.subrange(0, 6) =~= "stock_"@);
            assert(n.subrange(0, 8)[0] != "futures_"@[0]);
            assert(n.subrange(n.len() - 6, n.len() as int) =~= "_order"@);
            assert(n.subrange(n.len() - 5, n.len() as int)[0] != "_deal"@[0]);
        },
        SinopacOrderEvent::StockDeal => {
            assert(n.subrange(0, 6) =~= "stock_"@);
            assert(n.subrange(0, 8)[0] != "futures_"@[0]);
            assert(n.subrange(n.len() - 5, n.len() as int) =~= "_deal"@);
            assert(n.subrange(n.len() - 6, n.len() as int)[0] != "_order"@[0]);
        },
        SinopacOrderEvent::FuturesOrder => {
            assert(n.subrange(0, 8) =~= "futures_"@);
            assert(n.subrange(0, 6)[0] != "stock_"@[0]);
            assert(n.subrange(n.len() - 6, n.len() as int) =~= "_order"@);
            assert(n.subrange(n.len() - 5, n.len() as int)[0] != "_deal"@[0]);
        },
        SinopacOrderEvent::FuturesDeal => {
            assert(n.subrange(0, 8) =~= "futures_"@);
            assert(n.subrange(0, 6)[0] != "stock_"@[0]);
            assert(n.subrange(n.len() - 5, n.len() as int) =~= "_deal"@);
            assert(n.subrange(n.len() - 6, n.len() as int)[0] != "_order"@[0]);
        },
    }
}

} // verus!
