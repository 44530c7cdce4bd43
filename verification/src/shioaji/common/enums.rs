//! Shioaji gateway enumerations.

use vstd::prelude::*;

use crate::text::str_eq;

verus! {

/// Trading action (buy/sell).
#[derive(Clone, Copy, Debug, PartialEq, Eq, Hash, Structural)]
pub enum ShioajiAction {
    Buy,
    Sell,
}

/// Price type for order submission.
#[derive(Clone, Copy, Debug, PartialEq, Eq, Hash, Structural)]
pub enum ShioajiPriceType {
    LMT,
    MKT,
    MKP,
}

/// Order duration (time in force).
#[derive(Clone, Copy, Debug, PartialEq, Eq, Hash, Structural)]
pub enum ShioajiOrderType {
    ROD,
    IOC,
    FOK,
}

/// Stock order credit condition.
#[derive(Clone, Copy, Debug, PartialEq, Eq, Hash, Structural)]
pub enum ShioajiOrderCond {
    Cash,
    MarginTrading,
    ShortSelling,
}

/// Stock lot size type.
#[derive(Clone, Copy, Debug, PartialEq, Eq, Hash, Structural)]
pub enum ShioajiOrderLot {
    Common,
    Odd,
    IntradayOdd,
    Fixing,
}

/// Quote subscription type.
#[derive(Clone, Copy, Debug, PartialEq, Eq, Hash, Structural)]
pub enum ShioajiQuoteType {
    Tick,
    BidAsk,
}

impl ShioajiQuoteType {
    /// The gateway's name of the quote type.
    pub open spec fn spec_name(self) -> Seq<char> {
        match self {
            ShioajiQuoteType::Tick => "tick"@,
            ShioajiQuoteType::BidAsk => "bidask"@,
        }
    }

    /// The gateway's name of the quote type: `tick` or `bidask`.
    pub fn as_str(&self) -> (s: &'static str)
        ensures
            s@ == self.spec_name(),
    {
        match self {
            ShioajiQuoteType::Tick => "tick",
            ShioajiQuoteType::BidAsk => "bidask",
        }
    }
}

/// Market type for endpoint routing.
#[derive(Clone, Copy, Debug, PartialEq, Eq, Hash, Structural)]
pub enum ShioajiMarket {
    Stock,
    Futures,
    Options,
}

impl ShioajiMarket {
    /// The gateway's name of the market.
    pub open spec fn spec_name(self) -> Seq<char> {
        match self {
            ShioajiMarket::Stock => "stock"@,
            ShioajiMarket::Futures => "futures"@,
            ShioajiMarket::Options => "options"@,
        }
    }

    /// The gateway's name of the market: `stock`, `futures` or `options`.
    pub fn as_str(&self) -> (s: &'static str)
        ensures
            s@ == self.spec_name(),
    {
        match self {
            ShioajiMarket::Stock => "stock",
            ShioajiMarket::Futures => "futures",
            ShioajiMarket::Options => "options",
        }
    }
}

/// Exchange code for Taiwan markets.
#[derive(Clone, Copy, Debug, PartialEq, Eq, Hash, Structural)]
pub enum ShioajiExchange {
    TSE,
    OTC,
}

/// Order update event types from the gateway WebSocket.
#[derive(Clone, Copy, Debug, PartialEq, Eq, Hash, Structural)]
pub enum ShioajiOrderEvent {
    StockOrder,
    StockDeal,
    FuturesOrder,
    FuturesDeal,
}

impl ShioajiOrderEvent {
    /// The gateway's name of the event.
    pub open spec fn spec_name(self) -> Seq<char> {
        match self {
            ShioajiOrderEvent::StockOrder => "OrderState.StockOrder"@,
            ShioajiOrderEvent::StockDeal => "OrderState.StockDeal"@,
            ShioajiOrderEvent::FuturesOrder => "OrderState.FuturesOrder"@,
            ShioajiOrderEvent::FuturesDeal => "OrderState.FuturesDeal"@,
        }
    }

    /// The event with the given gateway name, if any.
    pub open spec fn spec_from_name(name: Seq<char>) -> Option<ShioajiOrderEvent> {
        if name == "OrderState.StockOrder"@ {
            Some(ShioajiOrderEvent::StockOrder)
        } else if name == "OrderState.StockDeal"@ {
            Some(ShioajiOrderEvent::StockDeal)
        } else if name == "OrderState.FuturesOrder"@ {
            Some(ShioajiOrderEvent::FuturesOrder)
        } else if name == "OrderState.FuturesDeal"@ {
            Some(ShioajiOrderEvent::FuturesDeal)
        } else {
            None
        }
    }

    /// The gateway's name of the event, e.g. `OrderState.StockDeal`.
    pub fn as_str(&self) -> (s: &'static str)
        ensures
            s@ == self.spec_name(),
    {
        match self {
            ShioajiOrderEvent::StockOrder => "OrderState.StockOrder",
            ShioajiOrderEvent::StockDeal => "OrderState.StockDeal",
            ShioajiOrderEvent::FuturesOrder => "OrderState.FuturesOrder",
            ShioajiOrderEvent::FuturesDeal => "OrderState.FuturesDeal",
        }
    }

    /// Reads an event from its gateway name.
    pub fn from_name(name: &str) -> (r: Option<ShioajiOrderEvent>)
        ensures
            r == Self::spec_from_name(name@),
    {
        if str_eq(name, "OrderState.StockOrder") {
            Some(ShioajiOrderEvent::StockOrder)
        } else if str_eq(name, "OrderState.StockDeal") {
            Some(ShioajiOrderEvent::StockDeal)
        } else if str_eq(name, "OrderState.FuturesOrder") {
            Some(ShioajiOrderEvent::FuturesOrder)
        } else if str_eq(name, "OrderState.FuturesDeal") {
            Some(ShioajiOrderEvent::FuturesDeal)
        } else {
            None
        }
    }
}

/// Reading back the gateway name of an order event gives the same event.
pub proof fn lemma_order_event_name_roundtrip(e: ShioajiOrderEvent)
    ensures
        ShioajiOrderEvent::spec_from_name(e.spec_name()) == Some(e),
{
    reveal_strlit("OrderState.StockOrder");
    reveal_strlit("OrderState.StockDeal");
    reveal_strlit("OrderState.FuturesOrder");
    reveal_strlit("OrderState.FuturesDeal");
    let names = seq![
        "OrderState.StockOrder"@,
        "OrderState.StockDeal"@,
        "OrderState.FuturesOrder"@,
        "OrderState.FuturesDeal"@,
    ];
    assert(names[0].len() == 21 && names[1].len() == 20);
    assert(names[2].len() == 23 && names[3].len() == 22);
}

} // verus!
