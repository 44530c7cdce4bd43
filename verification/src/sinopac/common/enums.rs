//! Sinopac gateway enumerations.

use vstd::prelude::*;

use crate::text::str_eq;

verus! {

/// Trading action (buy/sell).
#[derive(Clone, Copy, Debug, PartialEq, Eq, Hash, Structural)]
pub enum SinopacAction {
    Buy,
    Sell,
}

/// Price type for order submission.
#[derive(Clone, Copy, Debug, PartialEq, Eq, Hash, Structural)]
pub enum SinopacPriceType {
    LMT,
    MKT,
    MKP,
}

/// Order duration (time in force).
#[derive(Clone, Copy, Debug, PartialEq, Eq, Hash, Structural)]
pub enum SinopacOrderType {
    ROD,
    IOC,
    FOK,
}

/// Stock order credit condition.
#[derive(Clone, Copy, Debug, PartialEq, Eq, Hash, Structural)]
pub enum SinopacOrderCond {
    Cash,
    MarginTrading,
    ShortSelling,
}

/// Stock lot size type.
#[derive(Clone, Copy, Debug, PartialEq, Eq, Hash, Structural)]
pub enum SinopacOrderLot {
    Common,
    Odd,
    IntradayOdd,
    Fixing,
}

/// Quote subscription type.
#[derive(Clone, Copy, Debug, PartialEq, Eq, Hash, Structural)]
pub enum SinopacQuoteType {
    Tick,
    BidAsk,
}

impl SinopacQuoteType {
    /// The gateway's name of the quote type.
    pub open spec fn spec_name(self) -> Seq<char> {
        match self {
            SinopacQuoteType::Tick => "tick"@,
            SinopacQuoteType::BidAsk => "bidask"@,
        }
    }

    /// The gateway's name of the quote type: `tick` or `bidask`.
    pub fn as_str(&self) -> (s: &'static str)
        ensures
            s@ == self.spec_name(),
    {
        match self {
            SinopacQuoteType::Tick => "tick",
            SinopacQuoteType::BidAsk => "bidask",
        }
    }
}

/// Market type for endpoint routing.
#[derive(Clone, Copy, Debug, PartialEq, Eq, Hash, Structural)]
pub enum SinopacMarket {
    Stock,
    Futures,
    Options,
}

impl SinopacMarket {
    /// The gateway's name of the market.
    pub open spec fn spec_name(self) -> Seq<char> {
        match self {
            SinopacMarket::Stock => "stock"@,
            SinopacMarket::Futures => "futures"@,
            SinopacMarket::Options => "options"@,
        }
    }

    /// The gateway's name of the market: `stock`, `futures` or `options`.
    pub fn as_str(&self) -> (s: &'static str)
        ensures
            s@ == self.spec_name(),
    {
        match self {
            SinopacMarket::Stock => "stock",
            SinopacMarket::Futures => "futures",
            SinopacMarket::Options => "options",
        }
    }
}

/// Exchange code for Taiwan markets.
#[derive(Clone, Copy, Debug, PartialEq, Eq, Hash, Structural)]
pub enum SinopacExchange {
    TSE,
    OTC,
}

/// Order update event types from the gateway WebSocket.
#[derive(Clone, Copy, Debug, PartialEq, Eq, Hash, Structural)]
pub enum SinopacOrderEvent {
    StockOrder,
    StockDeal,
    FuturesOrder,
    FuturesDeal,
}

impl SinopacOrderEvent {
    /// The gateway's name of the event.
    pub open spec fn spec_name(self) -> Seq<char> {
        match self {
            SinopacOrderEvent::StockOrder => "OrderState.StockOrder"@,
            SinopacOrderEvent::StockDeal => "OrderState.StockDeal"@,
            SinopacOrderEvent::FuturesOrder => "OrderState.FuturesOrder"@,
            SinopacOrderEvent::FuturesDeal => "OrderState.FuturesDeal"@,
        }
    }

    /// The event with the given gateway name, if any.
    pub open spec fn spec_from_name(name: Seq<char>) -> Option<SinopacOrderEvent> {
        if name == "OrderState.StockOrder"@ {
            Some(SinopacOrderEvent::StockOrder)
        } else if name == "OrderState.StockDeal"@ {
            Some(SinopacOrderEvent::StockDeal)
        } else if name == "OrderState.FuturesOrder"@ {
            Some(SinopacOrderEvent::FuturesOrder)
        } else if name == "OrderState.FuturesDeal"@ {
            Some(SinopacOrderEvent::FuturesDeal)
        } else {
            None
        }
    }

    /// The gateway's name of the event, e.g. `OrderState.StockDeal`.
    pub fn as_str(&self) -> (s: &'static str)
        ensures
            s@ == self.spec_name(),
    {
        match self {
            SinopacOrderEvent::StockOrder => "OrderState.StockOrder",
            SinopacOrderEvent::StockDeal => "OrderState.StockDeal",
            SinopacOrderEvent::FuturesOrder => "OrderState.FuturesOrder",
            SinopacOrderEvent::FuturesDeal => "OrderState.FuturesDeal",
        }
    }

    /// Reads an event from its gateway name.
    pub fn from_name(name: &str) -> (r: Option<SinopacOrderEvent>)
        ensures
            r == Self::spec_from_name(name@),
    {
        if str_eq(name, "OrderState.StockOrder") {
            Some(SinopacOrderEvent::StockOrder)
        } else if str_eq(name, "OrderState.StockDeal") {
            Some(SinopacOrderEvent::StockDeal)
        } else if str_eq(name, "OrderState.FuturesOrder") {
            Some(SinopacOrderEvent::FuturesOrder)
        } else if str_eq(name, "OrderState.FuturesDeal") {
            Some(SinopacOrderEvent::FuturesDeal)
        } else {
            None
        }
    }
}

/// Reading back the gateway name of an order event gives the same event.
pub proof fn lemma_order_event_name_roundtrip(e: SinopacOrderEvent)
    ensures
        SinopacOrderEvent::spec_from_name(e.spec_name()) == Some(e),
{
    reveal_strlit("OrderState.StockOrder");
    reveal_strlit("OrderState.StockDeal");
    reveal_strlit("OrderState.FuturesOrder");
    reveal_strlit("OrderState.FuturesDeal");
    let names = seq![
        "OrderState.StockOrder"@,
        "OrderState.StockDeal"@,
        "OrderState.FuturesOrder"@,
        "OrderState.FuturesDeal"@,
    ];
    assert(names[0].len() == 21 && names[1].len() == 20);
    assert(names[2].len() == 23 && names[3].len() == 22);
}

} // verus!
