//! MT5-specific enumerations.

use vstd::prelude::*;

use crate::text::str_eq;

verus! {

/// MT5 order types.
#[derive(Debug, Clone, Copy, PartialEq, Eq, Hash, Structural)]
pub enum Mt5OrderType {
    OrderTypeBuy,
    OrderTypeSell,
    OrderTypeBuyLimit,
    OrderTypeSellLimit,
    OrderTypeBuyStop,
    OrderTypeSellStop,
    OrderTypeBuyStopLimit,
    OrderTypeSellStopLimit,
    OrderTypeCloseBy,
}

impl Mt5OrderType {
    /// The MT5 name of the order type (as MT5 and its JSON bridge spell it).
    pub open spec fn spec_name(self) -> Seq<char> {
        match self {
            Mt5OrderType::OrderTypeBuy => "ORDER_TYPE_BUY"@,
            Mt5OrderType::OrderTypeSell => "ORDER_TYPE_SELL"@,
            Mt5OrderType::OrderTypeBuyLimit => "ORDER_TYPE_BUY_LIMIT"@,
            Mt5OrderType::OrderTypeSellLimit => "ORDER_TYPE_SELL_LIMIT"@,
            Mt5OrderType::OrderTypeBuyStop => "ORDER_TYPE_BUY_STOP"@,
            Mt5OrderType::OrderTypeSellStop => "ORDER_TYPE_SELL_STOP"@,
            Mt5OrderType::OrderTypeBuyStopLimit => "ORDER_TYPE_BUY_STOP_LIMIT"@,
            Mt5OrderType::OrderTypeSellStopLimit => "ORDER_TYPE_SELL_STOP_LIMIT"@,
            Mt5OrderType::OrderTypeCloseBy => "ORDER_TYPE_CLOSE_BY"@,
        }
    }

    /// The MT5 name of the order type, e.g. `ORDER_TYPE_BUY_LIMIT`.
    pub fn as_str(&self) -> (s: &'static str)
        ensures
            s@ == self.spec_name(),
    {
        match self {
            Mt5OrderType::OrderTypeBuy => "ORDER_TYPE_BUY",
            Mt5OrderType::OrderTypeSell => "ORDER_TYPE_SELL",
            Mt5OrderType::OrderTypeBuyLimit => "ORDER_TYPE_BUY_LIMIT",
            Mt5OrderType::OrderTypeSellLimit => "ORDER_TYPE_SELL_LIMIT",
            Mt5OrderType::OrderTypeBuyStop => "ORDER_TYPE_BUY_STOP",
            Mt5OrderType::OrderTypeSellStop => "ORDER_TYPE_SELL_STOP",
            Mt5OrderType::OrderTypeBuyStopLimit => "ORDER_TYPE_BUY_STOP_LIMIT",
            Mt5OrderType::OrderTypeSellStopLimit => "ORDER_TYPE_SELL_STOP_LIMIT",
            Mt5OrderType::OrderTypeCloseBy => "ORDER_TYPE_CLOSE_BY",
        }
    }
}

/// MT5 order states.
#[derive(Debug, Clone, Copy, PartialEq, Eq, Hash, Structural)]
pub enum Mt5OrderState {
    Started,
    Placed,
    Canceled,
    Partial,
    Filled,
    Rejected,
    Expired,
    RequestAdd,
    RequestModify,
    RequestCancel,
}

impl Mt5OrderState {
    /// The numeric code MT5 gives the order state.
    pub open spec fn spec_code(self) -> i32 {
        match self {
            Mt5OrderState::Started => 0,
            Mt5OrderState::Placed => 1,
            Mt5OrderState::Canceled => 2,
            Mt5OrderState::Partial => 3,
            Mt5OrderState::Filled => 4,
            Mt5OrderState::Rejected => 5,
            Mt5OrderState::Expired => 6,
            Mt5OrderState::RequestAdd => 7,
            Mt5OrderState::RequestModify => 8,
            Mt5OrderState::RequestCancel => 9,
        }
    }

    /// The numeric code MT5 gives the order state (`ORDER_STATE_*`).
    pub fn code(&self) -> (c: i32)
        ensures
            c == self.spec_code(),
    {
        match self {
            Mt5OrderState::Started => 0,
            Mt5OrderState::Placed => 1,
            Mt5OrderState::Canceled => 2,
            Mt5OrderState::Partial => 3,
            Mt5OrderState::Filled => 4,
            Mt5OrderState::Rejected => 5,
            Mt5OrderState::Expired => 6,
            Mt5OrderState::RequestAdd => 7,
            Mt5OrderState::RequestModify => 8,
            Mt5OrderState::RequestCancel => 9,
        }
    }

    /// The order state with the given numeric code, if there is one.
    pub fn from_code(code: i32) -> (r: Option<Mt5OrderState>)
        ensures
            r matches Some(st) ==> st.spec_code() == code,
            r is None <==> !(0 <= code <= 9),
    {
        if code == 0 {
            Some(Mt5OrderState::Started)
        } else if code == 1 {
            Some(Mt5OrderState::Placed)
        } else if code == 2 {
            Some(Mt5OrderState::Canceled)
        } else if code == 3 {
            Some(Mt5OrderState::Partial)
        } else if code == 4 {
            Some(Mt5OrderState::Filled)
        } else if code == 5 {
            Some(Mt5OrderState::Rejected)
        } else if code == 6 {
            Some(Mt5OrderState::Expired)
        } else if code == 7 {
            Some(Mt5OrderState::RequestAdd)
        } else if code == 8 {
            Some(Mt5OrderState::RequestModify)
        } else if code == 9 {
            Some(Mt5OrderState::RequestCancel)
        } else {
            None
        }
    }
}

/// MT5 position types.
#[derive(Debug, Clone, Copy, PartialEq, Eq, Hash, Structural)]
pub enum Mt5PositionType {
    Buy,
    Sell,
}

impl Mt5PositionType {
    /// The numeric code MT5 gives the position type.
    pub open spec fn spec_code(self) -> i32 {
        match self {
            Mt5PositionType::Buy => 0,
            Mt5PositionType::Sell => 1,
        }
    }

    /// The numeric code MT5 gives the position type (`POSITION_TYPE_*`).
    pub fn code(&self) -> (c: i32)
        ensures
            c == self.spec_code(),
    {
        match self {
            Mt5PositionType::Buy => 0,
            Mt5PositionType::Sell => 1,
        }
    }

    /// The position type with the given numeric code, if there is one.
    pub fn from_code(code: i32) -> (r: Option<Mt5PositionType>)
        ensures
            r matches Some(p) ==> p.spec_code() == code,
            r is None <==> !(0 <= code <= 1),
    {
        if code == 0 {
            Some(Mt5PositionType::Buy)
        } else if code == 1 {
            Some(Mt5PositionType::Sell)
        } else {
            None
        }
    }
}

/// MT5 timeframes.
#[derive(Debug, Clone, Copy, PartialEq, Eq, Hash, Structural)]
pub enum Mt5TimeFrame {
    Tick,
    M1,
    M5,
    M15,
    M30,
    H1,
    H4,
    D1,
    W1,
    MN1,
}

impl Mt5TimeFrame {
    /// The length of the timeframe in minutes (0 for tick data).
    pub open spec fn spec_minutes(self) -> i64 {
        match self {
            Mt5TimeFrame::Tick => 0,
            Mt5TimeFrame::M1 => 1,
            Mt5TimeFrame::M5 => 5,
            Mt5TimeFrame::M15 => 15,
            Mt5TimeFrame::M30 => 30,
            Mt5TimeFrame::H1 => 60,
            Mt5TimeFrame::H4 => 240,
            Mt5TimeFrame::D1 => 1440,
            Mt5TimeFrame::W1 => 10080,
            Mt5TimeFrame::MN1 => 43200,
        }
    }

    /// The name MT5 uses for the timeframe on the wire.
    pub open spec fn spec_name(self) -> Seq<char> {
        match self {
            Mt5TimeFrame::Tick => "TICK"@,
            Mt5TimeFrame::M1 => "M1"@,
            Mt5TimeFrame::M5 => "M5"@,
            Mt5TimeFrame::M15 => "M15"@,
            Mt5TimeFrame::M30 => "M30"@,
            Mt5TimeFrame::H1 => "H1"@,
            Mt5TimeFrame::H4 => "H4"@,
            Mt5TimeFrame::D1 => "D1"@,
            Mt5TimeFrame::W1 => "W1"@,
            Mt5TimeFrame::MN1 => "MN1"@,
        }
    }

    /// Returns the timeframe in minutes (0 for tick data).
    pub fn as_minutes(&self) -> (m: i64)
        ensures
            m == self.spec_minutes(),
    {
        match self {
            Mt5TimeFrame::Tick => 0,
            Mt5TimeFrame::M1 => 1,
            Mt5TimeFrame::M5 => 5,
            Mt5TimeFrame::M15 => 15,
            Mt5TimeFrame::M30 => 30,
            Mt5TimeFrame::H1 => 60,
            Mt5TimeFrame::H4 => 240,
            Mt5TimeFrame::D1 => 1440,
            Mt5TimeFrame::W1 => 10080,
            Mt5TimeFrame::MN1 => 43200,
        }
    }

    /// Returns the name MT5 uses for the timeframe (`TICK`, `M1`, ... `MN1`).
    pub fn name(&self) -> (s: &'static str)
        ensures
            s@ == self.spec_name(),
    {
        match self {
            Mt5TimeFrame::Tick => "TICK",
            Mt5TimeFrame::M1 => "M1",
            Mt5TimeFrame::M5 => "M5",
            Mt5TimeFrame::M15 => "M15",
            Mt5TimeFrame::M30 => "M30",
            Mt5TimeFrame::H1 => "H1",
            Mt5TimeFrame::H4 => "H4",
            Mt5TimeFrame::D1 => "D1",
            Mt5TimeFrame::W1 => "W1",
            Mt5TimeFrame::MN1 => "MN1",
        }
    }

    /// The timeframe whose MT5 name is `name`, if any.
    pub open spec fn spec_from_name(name: Seq<char>) -> Option<Mt5TimeFrame> {
        if name == "TICK"@ {
            Some(Mt5TimeFrame::Tick)
        } else if name == "M1"@ {
            Some(Mt5TimeFrame::M1)
        } else if name == "M5"@ {
            Some(Mt5TimeFrame::M5)
        } else if name == "M15"@ {
            Some(Mt5TimeFrame::M15)
        } else if name == "M30"@ {
            Some(Mt5TimeFrame::M30)
        } else if name == "H1"@ {
            Some(Mt5TimeFrame::H1)
        } else if name == "H4"@ {
            Some(Mt5TimeFrame::H4)
        } else if name == "D1"@ {
            Some(Mt5TimeFrame::D1)
        } else if name == "W1"@ {
            Some(Mt5TimeFrame::W1)
        } else if name == "MN1"@ {
            Some(Mt5TimeFrame::MN1)
        } else {
            None
        }
    }

    /// Reads a timeframe from its MT5 name.
    pub fn from_name(name: &str) -> (r: Option<Mt5TimeFrame>)
        ensures
            r == Self::spec_from_name(name@),
    {
        if str_eq(name, "TICK") {
            Some(Mt5TimeFrame::Tick)
        } else if str_eq(name, "M1") {
            Some(Mt5TimeFrame::M1)
        } else if str_eq(name, "M5") {
            Some(Mt5TimeFrame::M5)
        } else if str_eq(name, "M15") {
            Some(Mt5TimeFrame::M15)
        } else if str_eq(name, "M30") {
            Some(Mt5TimeFrame::M30)
        } else if str_eq(name, "H1") {
            Some(Mt5TimeFrame::H1)
        } else if str_eq(name, "H4") {
            Some(Mt5TimeFrame::H4)
        } else if str_eq(name, "D1") {
            Some(Mt5TimeFrame::D1)
        } else if str_eq(name, "W1") {
            Some(Mt5TimeFrame::W1)
        } else if str_eq(name, "MN1") {
            Some(Mt5TimeFrame::MN1)
        } else {
            None
        }
    }
}

/// Reading back the name of a timeframe gives the same timeframe.
pub proof fn lemma_timeframe_name_roundtrip(tf: Mt5TimeFrame)
    ensures
        Mt5TimeFrame::spec_from_name(tf.spec_name()) == Some(tf),
{
    reveal_strlit("TICK");
    reveal_strlit("M1");
    reveal_strlit("M5");
    reveal_strlit("M15");
    reveal_strlit("M30");
    reveal_strlit("H1");
    reveal_strlit("H4");
    reveal_strlit("D1");
    reveal_strlit("W1");
    reveal_strlit("MN1");
    let names = seq!["TICK"@, "M1"@, "M5"@, "M15"@, "M30"@, "H1"@, "H4"@, "D1"@, "W1"@, "MN1"@];
    assert forall|i: int, j: int| 0 <= i < j < 10 implies names[i] != names[j] by {
        if names[i].len() == names[j].len() {
            if names[i][0] == names[j][0] {
                assert(names[i][1] != names[j][1] || names[i][2] != names[j][2]);
            } else {
                assert(names[i][0] != names[j][0]);
            }
        }
    }
    assert(names[0] == "TICK"@);
    assert(names[1] == "M1"@);
    assert(names[2] == "M5"@);
    assert(names[3] == "M15"@);
    assert(names[4] == "M30"@);
    assert(names[5] == "H1"@);
    assert(names[6] == "H4"@);
    assert(names[7] == "D1"@);
    assert(names[8] == "W1"@);
    assert(names[9] == "MN1"@);
}

/// Only tick data has no length, and the bar timeframes are listed from the
/// shortest to the longest.
pub proof fn lemma_timeframe_minutes_order(a: Mt5TimeFrame, b: Mt5TimeFrame)
    ensures
        a.spec_minutes() == 0 <==> a == Mt5TimeFrame::Tick,
        a.spec_minutes() >= 0,
        a.spec_minutes() == b.spec_minutes() ==> a == b,
{
}

/// Reading back the code of an order state gives the same state.
pub proof fn lemma_order_state_code_roundtrip(st: Mt5OrderState)
    ensures
        0 <= st.spec_code() <= 9,
        forall|other: Mt5OrderState| other.spec_code() == st.spec_code() ==> other == st,
{
}

/// MT5 tick flags (the `flags` bit set of a tick).
#[derive(Debug, Clone, Copy, PartialEq, Eq, Structural)]
pub struct Mt5TickFlags(pub u32);

impl Mt5TickFlags {
    pub const BID: u32 = 0x02;
    pub const ASK: u32 = 0x04;
    pub const LAST: u32 = 0x08;
    pub const VOLUME: u32 = 0x10;
    pub const BUY: u32 = 0x20;
    pub const SELL: u32 = 0x40;

    /// The tick was a buy deal.
    pub fn is_buy(&self) -> (b: bool)
        ensures
            b == (self.0 & 0x20 != 0),
    {
        self.0 & Self::BUY != 0
    }

    /// The tick was a sell deal.
    pub fn is_sell(&self) -> (b: bool)
        ensures
            b == (self.0 & 0x40 != 0),
    {
        self.0 & Self::SELL != 0
    }

    /// The tick changed the bid price.
    pub fn has_bid(&self) -> (b: bool)
        ensures
            b == (self.0 & 0x02 != 0),
    {
        self.0 & Self::BID != 0
    }

    /// The tick changed the ask price.
    pub fn has_ask(&self) -> (b: bool)
        ensures
            b == (self.0 & 0x04 != 0),
    {
        self.0 & Self::ASK != 0
    }

    /// The tick changed the last deal price.
    pub fn has_last(&self) -> (b: bool)
        ensures
            b == (self.0 & 0x08 != 0),
    {
        self.0 & Self::LAST != 0
    }

    /// The tick changed the volume.
    pub fn has_volume(&self) -> (b: bool)
        ensures
            b == (self.0 & 0x10 != 0),
    {
        self.0 & Self::VOLUME != 0
    }
}

} // verus!
