//! Trading-domain values the adapters produce: identifiers and the order,
//! trade and instrument enumerations that reports and ticks carry.

use vstd::prelude::*;

use crate::text::concat3;

verus! {

/// A venue-qualified instrument identifier, written `SYMBOL.VENUE`.
#[derive(Debug, Clone, PartialEq, Eq)]
pub struct InstrumentId {
    pub symbol: String,
    pub venue: String,
}

impl InstrumentId {
    /// The textual form `SYMBOL.VENUE`.
    pub open spec fn spec_text(self) -> Seq<char> {
        self.symbol@ + "."@ + self.venue@
    }

    /// Builds an instrument identifier from a symbol and a venue.
    pub fn new(symbol: &str, venue: &str) -> (id: InstrumentId)
        ensures
            id.symbol@ == symbol@,
            id.venue@ == venue@,
    {
        InstrumentId { symbol: String::from_str(symbol), venue: String::from_str(venue) }
    }

    /// The textual form `SYMBOL.VENUE`.
    pub fn to_text(&self) -> (s: String)
        ensures
            s@ == self.spec_text(),
    {
        concat3(self.symbol.as_str(), ".", self.venue.as_str())
    }
}

/// The side of an order.
#[derive(Debug, Clone, Copy, PartialEq, Eq, Hash, Structural)]
pub enum OrderSide {
    NoOrderSide,
    Buy,
    Sell,
}

impl OrderSide {
    /// The variant name, as `Debug` writes it.
    pub open spec fn spec_debug_name(self) -> Seq<char> {
        match self {
            OrderSide::NoOrderSide => "NoOrderSide"@,
            OrderSide::Buy => "Buy"@,
            OrderSide::Sell => "Sell"@,
        }
    }

    /// The variant name, as `Debug` writes it.
    pub fn debug_name(&self) -> (s: &'static str)
        ensures
            s@ == self.spec_debug_name(),
    {
        match self {
            OrderSide::NoOrderSide => "NoOrderSide",
            OrderSide::Buy => "Buy",
            OrderSide::Sell => "Sell",
        }
    }
}

/// The type of an order.
#[derive(Debug, Clone, Copy, PartialEq, Eq, Hash, Structural)]
pub enum OrderType {
    Market,
    Limit,
    StopMarket,
    StopLimit,
    MarketToLimit,
    MarketIfTouched,
    LimitIfTouched,
    TrailingStopMarket,
    TrailingStopLimit,
}

impl OrderType {
    /// The variant name, as `Debug` writes it.
    pub open spec fn spec_debug_name(self) -> Seq<char> {
        match self {
            OrderType::Market => "Market"@,
            OrderType::Limit => "Limit"@,
            OrderType::StopMarket => "StopMarket"@,
            OrderType::StopLimit => "StopLimit"@,
            OrderType::MarketToLimit => "MarketToLimit"@,
            OrderType::MarketIfTouched => "MarketIfTouched"@,
            OrderType::LimitIfTouched => "LimitIfTouched"@,
            OrderType::TrailingStopMarket => "TrailingStopMarket"@,
            OrderType::TrailingStopLimit => "TrailingStopLimit"@,
        }
    }

    /// The variant name, as `Debug` writes it.
    pub fn debug_name(&self) -> (s: &'static str)
        ensures
            s@ == self.spec_debug_name(),
    {
        match self {
            OrderType::Market => "Market",
            OrderType::Limit => "Limit",
            OrderType::StopMarket => "StopMarket",
            OrderType::StopLimit => "StopLimit",
            OrderType::MarketToLimit => "MarketToLimit",
            OrderType::MarketIfTouched => "MarketIfTouched",
            OrderType::LimitIfTouched => "LimitIfTouched",
            OrderType::TrailingStopMarket => "TrailingStopMarket",
            OrderType::TrailingStopLimit => "TrailingStopLimit",
        }
    }
}

/// The status of an order.
#[derive(Debug, Clone, Copy, PartialEq, Eq, Hash, Structural)]
pub enum OrderStatus {
    Initialized,
    Denied,
    Emulated,
    Released,
    Submitted,
    Accepted,
    Rejected,
    Canceled,
    Expired,
    Triggered,
    PendingUpdate,
    PendingCancel,
    PartiallyFilled,
    Filled,
}

/// The time in force of an order.
#[derive(Debug, Clone, Copy, PartialEq, Eq, Hash, Structural)]
pub enum TimeInForce {
    Gtc,
    Ioc,
    Fok,
    Gtd,
    Day,
    AtTheOpen,
    AtTheClose,
}

/// Which side took liquidity in a trade.
#[derive(Debug, Clone, Copy, PartialEq, Eq, Hash, Structural)]
pub enum AggressorSide {
    NoAggressor,
    Buyer,
    Seller,
}

/// The asset class of an instrument's underlying.
#[derive(Debug, Clone, Copy, PartialEq, Eq, Hash, Structural)]
pub enum AssetClass {
    FX,
    Equity,
    Commodity,
    Debt,
    Index,
    Cryptocurrency,
    Alternative,
}

/// The kind of an option contract.
#[derive(Debug, Clone, Copy, PartialEq, Eq, Hash, Structural)]
pub enum OptionKind {
    Call,
    Put,
}

} // verus!
