//! MT5 messages that the library builds or reads without floating-point
//! fields. Messages with prices and volumes live with the JSON decoding in
//! the application crate.

use vstd::prelude::*;

use crate::json::{json_member, json_object, json_string, JsonObjectWriter};
use crate::mt5::common::enums::Mt5TimeFrame;
use crate::mt5::websocket::client::HistoryWindow;
use crate::text::{decimal, parse_u64, push_decimal, signed_decimal, spec_parse_u64};

verus! {

/// An MT5 `CONFIG` action request: subscribe to live data of a symbol.
#[derive(Debug, Clone)]
pub struct Mt5ConfigRequest {
    pub action: String,
    pub symbol: String,
    pub chart_tf: Mt5TimeFrame,
}

impl Mt5ConfigRequest {
    /// The `CONFIG` request for `symbol` at `timeframe`.
    pub fn new(symbol: &str, timeframe: Mt5TimeFrame) -> (r: Mt5ConfigRequest)
        ensures
            r.action@ == "CONFIG"@,
            r.symbol@ == symbol@,
            r.chart_tf == timeframe,
    {
        Mt5ConfigRequest {
            action: String::from_str("CONFIG"),
            symbol: String::from_str(symbol),
            chart_tf: timeframe,
        }
    }

    /// The request as JSON text: `action`, `symbol`, then `chartTF` with the
    /// timeframe's MT5 name.
    pub fn to_json(&self) -> (s: String)
        ensures
            s@ == json_object(
                seq![
                    json_member("action"@, json_string(self.action@)),
                    json_member("symbol"@, json_string(self.symbol@)),
                    json_member("chartTF"@, json_string(self.chart_tf.spec_name())),
                ],
            ),
    {
        let mut w = JsonObjectWriter::new();
        w.push_str("action", self.action.as_str());
        w.push_str("symbol", self.symbol.as_str());
        w.push_str("chartTF", self.chart_tf.name());
        let ghost ms = w.members();
        let s = w.finish();
        assert(ms =~= seq![
            json_member("action"@, json_string(self.action@)),
            json_member("symbol"@, json_string(self.symbol@)),
            json_member("chartTF"@, json_string(self.chart_tf.spec_name())),
        ]);
        s
    }
}

/// A request that names only its action, such as `{"action":"ACCOUNT"}`.
pub fn action_request_json(action: &str) -> (s: String)
    ensures
        s@ == json_object(seq![json_member("action"@, json_string(action@))]),
{
    let mut w = JsonObjectWriter::new();
    w.push_str("action", action);
    let ghost ms = w.members();
    let s = w.finish();
    assert(ms =~= seq![json_member("action"@, json_string(action@))]);
    s
}

/// The `HISTORY` request of the trades of the account.
pub fn trade_history_request_json() -> (s: String)
    ensures
        s@ == json_object(
            seq![
                json_member("action"@, json_string("HISTORY"@)),
                json_member("actionType"@, json_string("TRADES"@)),
            ],
        ),
{
    let mut w = JsonObjectWriter::new();
    w.push_str("action", "HISTORY");
    w.push_str("actionType", "TRADES");
    let ghost ms = w.members();
    let s = w.finish();
    assert(ms =~= seq![
        json_member("action"@, json_string("HISTORY"@)),
        json_member("actionType"@, json_string("TRADES"@)),
    ]);
    s
}

/// The `HISTORY` request of the bars of `symbol` at `timeframe` within a
/// window, its keys in the order `serde_json` writes an object's keys
/// (sorted).
pub fn history_request_json(symbol: &str, timeframe: &str, window: &HistoryWindow) -> (s: String)
    ensures
        s@ == json_object(
            seq![
                json_member("action"@, json_string("HISTORY"@)),
                json_member("actionType"@, json_string("DATA"@)),
                json_member("chartTF"@, json_string(timeframe@)),
                json_member("count"@, signed_decimal(window.count as int)),
                json_member("fromDate"@, signed_decimal(window.from_date as int)),
                json_member("symbol"@, json_string(symbol@)),
                json_member("toDate"@, signed_decimal(window.to_date as int)),
            ],
        ),
{
    let mut w = JsonObjectWriter::new();
    w.push_str("action", "HISTORY");
    w.push_str("actionType", "DATA");
    w.push_str("chartTF", timeframe);
    w.push_i64("count", window.count as i64);
    w.push_i64("fromDate", window.from_date);
    w.push_str("symbol", symbol);
    w.push_i64("toDate", window.to_date);
    let ghost ms = w.members();
    let s = w.finish();
    assert(ms =~= seq![
        json_member("action"@, json_string("HISTORY"@)),
        json_member("actionType"@, json_string("DATA"@)),
        json_member("chartTF"@, json_string(timeframe@)),
        json_member("count"@, signed_decimal(window.count as int)),
        json_member("fromDate"@, signed_decimal(window.from_date as int)),
        json_member("symbol"@, json_string(symbol@)),
        json_member("toDate"@, signed_decimal(window.to_date as int)),
    ]);
    s
}

/// The MT5 ticket of a venue order id: the id read as an unsigned integer,
/// or 0 when it is not one.
pub fn ticket_from_venue_order_id(venue_order_id: &str) -> (t: u64)
    ensures
        t == (match spec_parse_u64(venue_order_id@) {
            Some(v) => v,
            None => 0,
        }),
{
    match parse_u64(venue_order_id) {
        Some(v) => v,
        None => 0,
    }
}

/// The `TRADE_CLOSE` request that cancels the order with the given ticket.
pub fn cancel_request_json(ticket: u64) -> (s: String)
    ensures
        s@ == json_object(
            seq![
                json_member("action"@, json_string("TRADE_CLOSE"@)),
                json_member("ticket"@, decimal(ticket as nat)),
            ],
        ),
{
    let mut w = JsonObjectWriter::new();
    w.push_str("action", "TRADE_CLOSE");
    w.push_u64("ticket", ticket);
    let ghost ms = w.members();
    let s = w.finish();
    assert(ms =~= seq![
        json_member("action"@, json_string("TRADE_CLOSE"@)),
        json_member("ticket"@, decimal(ticket as nat)),
    ]);
    s
}

/// Reads a boolean that MT5 sends as an integer: 0 is false, 1 is true, and
/// any other value is an error.
pub fn int_flag_to_bool(v: u8) -> (r: Result<bool, String>)
    ensures
        v == 0 ==> r == Ok::<bool, String>(false),
        v == 1 ==> r == Ok::<bool, String>(true),
        v > 1 ==> (r matches Err(m) && m@ == "Expected 0 or 1 for boolean, got "@ + decimal(v as nat)),
{
    if v == 0 {
        Ok(false)
    } else if v == 1 {
        Ok(true)
    } else {
        let mut m = String::from_str("Expected 0 or 1 for boolean, got ");
        push_decimal(&mut m, v as u64);
        Err(m)
    }
}

/// An MT5 error message.
#[derive(Debug, Clone)]
pub struct Mt5ErrorMsg {
    pub error_code: i32,
    pub error_description: String,
    pub function: String,
}

} // verus!
