//! The decisions of the MT5 message parsers: how MT5 order types and states
//! map onto order sides, types and statuses, and the checks on live bars.

use vstd::prelude::*;

use crate::model::{OrderSide, OrderStatus, OrderType, TimeInForce};
use crate::mt5::common::enums::Mt5OrderType;
use crate::mt5::websocket::client::spec_action_type;
use crate::text::{
    contains, decimal, found_from, lemma_contains_by_search, matches_from, push_decimal,
    push_signed_decimal, seq_contains, signed_decimal,
};

verus! {

/// The side of an MT5 order, read from its type name: a name with `BUY` is a
/// buy, else one with `SELL` is a sell.
pub open spec fn spec_order_side(kind_name: Seq<char>) -> OrderSide {
    if seq_contains(kind_name, "BUY"@) {
        OrderSide::Buy
    } else if seq_contains(kind_name, "SELL"@) {
        OrderSide::Sell
    } else {
        OrderSide::NoOrderSide
    }
}

/// The type of an MT5 order, read from its type name.
pub open spec fn spec_order_type(kind_name: Seq<char>) -> OrderType {
    if seq_contains(kind_name, "LIMIT"@) && seq_contains(kind_name, "STOP"@) {
        OrderType::StopLimit
    } else if seq_contains(kind_name, "STOP"@) {
        OrderType::StopMarket
    } else if seq_contains(kind_name, "LIMIT"@) {
        OrderType::Limit
    } else {
        OrderType::Market
    }
}

/// The status of an MT5 order, read from its state name.
pub open spec fn spec_order_status(state_name: Seq<char>) -> OrderStatus {
    if seq_contains(state_name, "FILLED"@) || seq_contains(state_name, "PLACED"@) {
        OrderStatus::Filled
    } else if seq_contains(state_name, "CANCELED"@) {
        OrderStatus::Canceled
    } else if seq_contains(state_name, "REJECTED"@) {
        OrderStatus::Rejected
    } else if seq_contains(state_name, "EXPIRED"@) {
        OrderStatus::Expired
    } else if seq_contains(state_name, "PARTIAL"@) {
        OrderStatus::PartiallyFilled
    } else if seq_contains(state_name, "ACCEPTED"@) || seq_contains(state_name, "STARTED"@) {
        OrderStatus::Accepted
    } else {
        OrderStatus::Initialized
    }
}

/// Maps an MT5 order type name (e.g. `ORDER_TYPE_BUY_LIMIT`) to the order side.
pub fn mt5_order_side(kind_name: &str) -> (s: OrderSide)
    ensures
        s == spec_order_side(kind_name@),
{
    if contains(kind_name, "BUY") {
        OrderSide::Buy
    } else if contains(kind_name, "SELL") {
        OrderSide::Sell
    } else {
        OrderSide::NoOrderSide
    }
}

/// Maps an MT5 order type name to the order type.
pub fn mt5_order_type(kind_name: &str) -> (t: OrderType)
    ensures
        t == spec_order_type(kind_name@),
{
    let has_limit = contains(kind_name, "LIMIT");
    let has_stop = contains(kind_name, "STOP");
    if has_limit && has_stop {
        OrderType::StopLimit
    } else if has_stop {
        OrderType::StopMarket
    } else if has_limit {
        OrderType::Limit
    } else {
        OrderType::Market
    }
}

/// Maps an MT5 order state name (e.g. `ORDER_STATE_FILLED`) to the status.
pub fn mt5_order_status(state_name: &str) -> (st: OrderStatus)
    ensures
        st == spec_order_status(state_name@),
{
    if contains(state_name, "FILLED") || contains(state_name, "PLACED") {
        OrderStatus::Filled
    } else if contains(state_name, "CANCELED") {
        OrderStatus::Canceled
    } else if contains(state_name, "REJECTED") {
        OrderStatus::Rejected
    } else if contains(state_name, "EXPIRED") {
        OrderStatus::Expired
    } else if contains(state_name, "PARTIAL") {
        OrderStatus::PartiallyFilled
    } else if contains(state_name, "ACCEPTED") || contains(state_name, "STARTED") {
        OrderStatus::Accepted
    } else {
        OrderStatus::Initialized
    }
}

/// Which price field of an order status report the order's opening price
/// fills.
#[derive(Debug, Clone, Copy, PartialEq, Eq, Structural)]
pub enum OrderPriceField {
    /// The report carries no price.
    NoPrice,
    /// The opening price is the trigger price (stop-market orders).
    TriggerPrice,
    /// The opening price is the limit price (limit orders).
    LimitPrice,
}

/// What an order status report says of an MT5 order, apart from its prices,
/// quantities and times.
#[derive(Debug, Clone)]
pub struct OrderStatusDecision {
    pub order_side: OrderSide,
    pub order_type: OrderType,
    pub order_status: OrderStatus,
    pub time_in_force: TimeInForce,
    /// The venue order identifier: the MT5 ticket number.
    pub venue_order_id: String,
    /// The client order identifier: the order comment, when there is one.
    pub client_order_id: Option<String>,
    /// The report field that the opening price goes to.
    pub price_field: OrderPriceField,
}

/// Decides the order status report of an MT5 order from its type and state
/// names, its comment and ticket, whether its opening price is positive and
/// whether it has fills. Stop-limit orders with an opening price and orders
/// with fills are not supported (their trigger price and average fill price
/// are not in the message).
pub fn decide_order_status(
    kind_name: &str,
    state_name: &str,
    comment: &str,
    ticket: i64,
    price_open_positive: bool,
    has_fills: bool,
) -> (d: OrderStatusDecision)
    requires
        !(price_open_positive && spec_order_type(kind_name@) == OrderType::StopLimit),
        !has_fills,
    ensures
        d.order_side == spec_order_side(kind_name@),
        d.order_type == spec_order_type(kind_name@),
        d.order_status == spec_order_status(state_name@),
        d.time_in_force == TimeInForce::Gtc,
        d.venue_order_id@ == signed_decimal(ticket as int),
        comment@.len() == 0 ==> d.client_order_id is None,
        comment@.len() != 0 ==> (d.client_order_id matches Some(c) && c@ == comment@),
        d.price_field == (if !price_open_positive {
            OrderPriceField::NoPrice
        } else if d.order_type == OrderType::StopMarket {
            OrderPriceField::TriggerPrice
        } else if d.order_type == OrderType::Limit {
            OrderPriceField::LimitPrice
        } else {
            OrderPriceField::NoPrice
        }),
{
    let order_side = mt5_order_side(kind_name);
    let order_type = mt5_order_type(kind_name);
    let order_status = mt5_order_status(state_name);
    let mut venue_order_id = String::new();
    push_signed_decimal(&mut venue_order_id, ticket);
    assert(venue_order_id@ =~= signed_decimal(ticket as int));
    let client_order_id = if comment.unicode_len() != 0 {
        Some(String::from_str(comment))
    } else {
        None
    };
    let price_field = if !price_open_positive {
        OrderPriceField::NoPrice
    } else {
        match order_type {
            OrderType::StopMarket => OrderPriceField::TriggerPrice,
            OrderType::Limit => OrderPriceField::LimitPrice,
            _ => OrderPriceField::NoPrice,
        }
    };
    OrderStatusDecision {
        order_side,
        order_type,
        order_status,
        time_in_force: TimeInForce::Gtc,
        venue_order_id,
        client_order_id,
        price_field,
    }
}

/// Checks that a live bar carries `[timestamp_sec, open, high, low, close,
/// volume]`.
pub fn check_bar_data_len(len: usize) -> (r: Result<(), String>)
    ensures
        r is Ok <==> len >= 6,
        r matches Err(m) ==> m@ == "Invalid bar data array length: expected 6, got "@ + decimal(
            len as nat,
        ),
{
    if len < 6 {
        let mut m = String::from_str("Invalid bar data array length: expected 6, got ");
        push_decimal(&mut m, len as u64);
        Err(m)
    } else {
        Ok(())
    }
}

/// The event time of a live bar in nanoseconds: MT5 sends bar times in
/// seconds. A time before the epoch wraps around as a two's complement
/// conversion does.
pub fn bar_event_nanos(timestamp_sec: i64) -> (ns: u64)
    requires
        i64::MIN <= timestamp_sec * 1_000_000_000 <= i64::MAX,
    ensures
        timestamp_sec >= 0 ==> ns == timestamp_sec * 1_000_000_000,
        timestamp_sec < 0 ==> ns == timestamp_sec * 1_000_000_000 + 0x1_0000_0000_0000_0000,
{
    let p: i64 = timestamp_sec * 1_000_000_000;
    if p >= 0 {
        p as u64
    } else {
        let m: u64 = ((-(p + 1)) as u64) + 1;
        (u64::MAX - m) + 1
    }
}

/// Which of the words `BUY`, `SELL`, `LIMIT` and `STOP` the MT5 name of an
/// order type holds.
proof fn lemma_order_type_name_words(k: Mt5OrderType)
    requires
        k != Mt5OrderType::OrderTypeCloseBy,
    ensures
        seq_contains(k.spec_name(), "BUY"@) == (k == Mt5OrderType::OrderTypeBuy
            || k == Mt5OrderType::OrderTypeBuyLimit || k == Mt5OrderType::OrderTypeBuyStop
            || k == Mt5OrderType::OrderTypeBuyStopLimit),
        seq_contains(k.spec_name(), "SELL"@) == (k == Mt5OrderType::OrderTypeSell
            || k == Mt5OrderType::OrderTypeSellLimit || k == Mt5OrderType::OrderTypeSellStop
            || k == Mt5OrderType::OrderTypeSellStopLimit),
        seq_contains(k.spec_name(), "LIMIT"@) == (k == Mt5OrderType::OrderTypeBuyLimit
            || k == Mt5OrderType::OrderTypeSellLimit || k == Mt5OrderType::OrderTypeBuyStopLimit
            || k == Mt5OrderType::OrderTypeSellStopLimit),
        seq_contains(k.spec_name(), "STOP"@) == (k == Mt5OrderType::OrderTypeBuyStop
            || k == Mt5OrderType::OrderTypeSellStop || k == Mt5OrderType::OrderTypeBuyStopLimit
            || k == Mt5OrderType::OrderTypeSellStopLimit),
{
    let name = k.spec_name();
    lemma_contains_by_search(name, "BUY"@);
    lemma_contains_by_search(name, "SELL"@);
    lemma_contains_by_search(name, "LIMIT"@);
    lemma_contains_by_search(name, "STOP"@);
    reveal_strlit("BUY");
    reveal_strlit("SELL");
    reveal_strlit("LIMIT");
    reveal_strlit("STOP");
    reveal_strlit("ORDER_TYPE_BUY");
    reveal_strlit("ORDER_TYPE_SELL");
    reveal_strlit("ORDER_TYPE_BUY_LIMIT");
    reveal_strlit("ORDER_TYPE_SELL_LIMIT");
    reveal_strlit("ORDER_TYPE_BUY_STOP");
    reveal_strlit("ORDER_TYPE_SELL_STOP");
    reveal_strlit("ORDER_TYPE_BUY_STOP_LIMIT");
    reveal_strlit("ORDER_TYPE_SELL_STOP_LIMIT");
    reveal_with_fuel(found_from, 27);
    reveal_with_fuel(matches_from, 6);
}

/// An order sent to MT5 reads back with the same side and type: the MT5
/// order type chosen for a new order, when one is, names the order's side and
/// type to the parser of order reports.
pub proof fn lemma_action_type_reads_back(side: OrderSide, order_type: OrderType)
    requires
        spec_action_type(side, order_type) is Some,
    ensures
        spec_order_side(spec_action_type(side, order_type)->0.spec_name()) == side,
        spec_order_type(spec_action_type(side, order_type)->0.spec_name()) == order_type,
{
    lemma_order_type_name_words(spec_action_type(side, order_type)->0);
}

/// The MT5 word for an order side.
pub open spec fn side_word(side: OrderSide) -> Seq<char> {
    match side {
        OrderSide::Buy => "BUY"@,
        OrderSide::Sell => "SELL"@,
        OrderSide::NoOrderSide => Seq::empty(),
    }
}

/// The MT5 ending for an order type: none for a market order.
pub open spec fn order_type_suffix(order_type: OrderType) -> Seq<char> {
    match order_type {
        OrderType::Limit => "_LIMIT"@,
        OrderType::StopMarket => "_STOP"@,
        OrderType::StopLimit => "_STOP_LIMIT"@,
        _ => Seq::empty(),
    }
}

/// The `actionType` sent for a new order is the MT5 constant of its side and
/// type: `ORDER_TYPE_`, then the side (`BUY` or `SELL`), then `_LIMIT`,
/// `_STOP` or `_STOP_LIMIT` unless it is a market order (so a buy limit
/// order is sent as `ORDER_TYPE_BUY_LIMIT`).
pub proof fn lemma_action_type_names(side: OrderSide, order_type: OrderType)
    requires
        spec_action_type(side, order_type) is Some,
    ensures
        spec_action_type(side, order_type)->0.spec_name() == "ORDER_TYPE_"@ + side_word(side)
            + order_type_suffix(order_type),
{
    reveal_strlit("ORDER_TYPE_");
    reveal_strlit("BUY");
    reveal_strlit("SELL");
    reveal_strlit("_LIMIT");
    reveal_strlit("_STOP");
    reveal_strlit("_STOP_LIMIT");
    reveal_strlit("ORDER_TYPE_BUY");
    reveal_strlit("ORDER_TYPE_SELL");
    reveal_strlit("ORDER_TYPE_BUY_LIMIT");
    reveal_strlit("ORDER_TYPE_SELL_LIMIT");
    reveal_strlit("ORDER_TYPE_BUY_STOP");
    reveal_strlit("ORDER_TYPE_SELL_STOP");
    reveal_strlit("ORDER_TYPE_BUY_STOP_LIMIT");
    reveal_strlit("ORDER_TYPE_SELL_STOP_LIMIT");
    let name = spec_action_type(side, order_type)->0.spec_name();
    assert(name =~= "ORDER_TYPE_"@ + side_word(side) + order_type_suffix(order_type));
}

} // verus!
