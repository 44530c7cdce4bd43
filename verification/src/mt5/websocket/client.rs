//! Configuration, errors and the request/response decisions of the MT5 client.

use vstd::prelude::*;

use crate::model::{InstrumentId, OrderSide, OrderType};
use crate::mt5::common::enums::{lemma_timeframe_name_roundtrip, Mt5OrderType, Mt5TimeFrame};
use crate::mt5::websocket::messages::Mt5ConfigRequest;
use crate::mt5::websocket::registry::BarTypeRegistry;
use crate::text::{concat2, concat3, decimal, push_decimal};

verus! {

/// Configuration of the MT5 client: the bridge host and its four ports.
#[derive(Debug, Clone)]
pub struct Mt5ClientConfig {
    pub host: String,
    pub data_port: u16,
    pub live_port: u16,
    pub stream_port: u16,
    pub sys_port: u16,
}

pub const DEFAULT_HOST: &'static str = "localhost";
pub const DEFAULT_DATA_PORT: u16 = 2202;
pub const DEFAULT_LIVE_PORT: u16 = 2203;
pub const DEFAULT_STREAM_PORT: u16 = 2204;
pub const DEFAULT_SYS_PORT: u16 = 2201;

impl Mt5ClientConfig {
    /// The configuration of a bridge on `localhost` with the standard ports.
    pub open spec fn spec_is_default(self) -> bool {
        &&& self.host@ == DEFAULT_HOST@
        &&& self.data_port == DEFAULT_DATA_PORT
        &&& self.live_port == DEFAULT_LIVE_PORT
        &&& self.stream_port == DEFAULT_STREAM_PORT
        &&& self.sys_port == DEFAULT_SYS_PORT
    }

    /// Builds a configuration from optional settings: with a host, each port
    /// that is not given takes its standard value; without a host, the whole
    /// standard configuration is used and the ports given are ignored.
    pub fn from_options(
        host: Option<String>,
        data_port: Option<u16>,
        live_port: Option<u16>,
        stream_port: Option<u16>,
        sys_port: Option<u16>,
    ) -> (c: Mt5ClientConfig)
        ensures
            host is None ==> c.spec_is_default(),
            host matches Some(h) ==> {
                &&& c.host@ == h@
                &&& c.data_port == (match data_port { Some(p) => p, None => DEFAULT_DATA_PORT })
                &&& c.live_port == (match live_port { Some(p) => p, None => DEFAULT_LIVE_PORT })
                &&& c.stream_port == (match stream_port {
                    Some(p) => p,
                    None => DEFAULT_STREAM_PORT,
                })
                &&& c.sys_port == (match sys_port { Some(p) => p, None => DEFAULT_SYS_PORT })
            },
    {
        match host {
            Some(host) => Mt5ClientConfig {
                host,
                data_port: match data_port { Some(p) => p, None => DEFAULT_DATA_PORT },
                live_port: match live_port { Some(p) => p, None => DEFAULT_LIVE_PORT },
                stream_port: match stream_port { Some(p) => p, None => DEFAULT_STREAM_PORT },
                sys_port: match sys_port { Some(p) => p, None => DEFAULT_SYS_PORT },
            },
            None => Mt5ClientConfig::default(),
        }
    }

    /// The ZeroMQ endpoint of one of the bridge's ports.
    pub open spec fn spec_endpoint(self, port: u16) -> Seq<char> {
        "tcp://"@ + self.host@ + ":"@ + decimal(port as nat)
    }

    /// The ZeroMQ endpoint `tcp://HOST:PORT` of one of the bridge's ports.
    pub fn endpoint(&self, port: u16) -> (e: String)
        ensures
            e@ == self.spec_endpoint(port),
    {
        let mut e = concat3("tcp://", self.host.as_str(), ":");
        push_decimal(&mut e, port as u64);
        e
    }
}

impl Default for Mt5ClientConfig {
    fn default() -> (c: Mt5ClientConfig)
        ensures
            c.spec_is_default(),
    {
        Mt5ClientConfig {
            host: String::from_str(DEFAULT_HOST),
            data_port: DEFAULT_DATA_PORT,
            live_port: DEFAULT_LIVE_PORT,
            stream_port: DEFAULT_STREAM_PORT,
            sys_port: DEFAULT_SYS_PORT,
        }
    }
}

/// The account identifier of an MT5 account number: the number with the
/// `MT5-` venue prefix.
pub fn account_id_text(account_number: &str) -> (id: String)
    ensures
        id@ == "MT5-"@ + account_number@,
{
    concat2("MT5-", account_number)
}

/// Errors of the MT5 client. Errors that come from the bridge's transport or
/// from JSON decoding carry their message.
#[derive(Debug, Clone, PartialEq, Eq)]
pub enum Mt5Error {
    Zmq(String),
    Json(String),
    Connection(String),
    InstrumentNotFound(InstrumentId),
    Parse(String),
    NotConnected,
    Anyhow(String),
}

impl Mt5Error {
    /// The text that describes the error.
    pub open spec fn spec_message(self) -> Seq<char> {
        match self {
            Mt5Error::Zmq(m) => "ZeroMQ error: "@ + m@,
            Mt5Error::Json(m) => "JSON parse error: "@ + m@,
            Mt5Error::Connection(m) => "Connection error: "@ + m@,
            Mt5Error::InstrumentNotFound(id) => "Instrument not found: "@ + id.spec_text(),
            Mt5Error::Parse(m) => "Parse error: "@ + m@,
            Mt5Error::NotConnected => "Not connected"@,
            Mt5Error::Anyhow(m) => "Anyhow error: "@ + m@,
        }
    }

    /// The text that describes the error, e.g. `Connection error: refused`.
    pub fn message(&self) -> (s: String)
        ensures
            s@ == self.spec_message(),
    {
        match self {
            Mt5Error::Zmq(m) => concat2("ZeroMQ error: ", m.as_str()),
            Mt5Error::Json(m) => concat2("JSON parse error: ", m.as_str()),
            Mt5Error::Connection(m) => concat2("Connection error: ", m.as_str()),
            Mt5Error::InstrumentNotFound(id) => {
                let t = id.to_text();
                concat2("Instrument not found: ", t.as_str())
            },
            Mt5Error::Parse(m) => concat2("Parse error: ", m.as_str()),
            Mt5Error::NotConnected => String::from_str("Not connected"),
            Mt5Error::Anyhow(m) => concat2("Anyhow error: ", m.as_str()),
        }
    }
}

/// The error text for a timeframe that bars cannot be subscribed at.
pub open spec fn invalid_timeframe_text(timeframe: Seq<char>) -> Seq<char> {
    "Invalid MT5 timeframe: "@ + timeframe + ". Supported: M1, M5, M15, M30, H1, H4, D1, W1, MN1"@
}

/// The bar timeframe named `timeframe`: any MT5 timeframe but tick data.
pub open spec fn spec_parse_bar_timeframe(timeframe: Seq<char>) -> Result<Mt5TimeFrame, Mt5Error> {
    match Mt5TimeFrame::spec_from_name(timeframe) {
        Some(tf) => if tf != Mt5TimeFrame::Tick {
            Ok(tf)
        } else {
            Err(Mt5Error::Parse(arbitrary()))
        },
        None => Err(Mt5Error::Parse(arbitrary())),
    }
}

/// Reads the timeframe of a bar subscription (`M1` ... `MN1`); `TICK` and
/// unknown names are rejected.
pub fn parse_bar_timeframe(timeframe: &str) -> (r: Result<Mt5TimeFrame, Mt5Error>)
    ensures
        r is Ok <==> spec_parse_bar_timeframe(timeframe@) is Ok,
        r matches Ok(tf) ==> spec_parse_bar_timeframe(timeframe@) == Ok::<Mt5TimeFrame, Mt5Error>(tf),
        r matches Err(e) ==> e matches Mt5Error::Parse(m) && m@ == invalid_timeframe_text(timeframe@),
{
    match Mt5TimeFrame::from_name(timeframe) {
        Some(tf) => {
            if tf != Mt5TimeFrame::Tick {
                return Ok(tf);
            }
        },
        None => {},
    }
    Err(Mt5Error::Parse(concat3(
        "Invalid MT5 timeframe: ",
        timeframe,
        ". Supported: M1, M5, M15, M30, H1, H4, D1, W1, MN1",
    )))
}

/// Decides a bar subscription: the client must be running and the timeframe
/// must be a bar timeframe; then the bar type is recorded for the symbol and
/// timeframe, and the `CONFIG` request to send is returned. On an error the
/// registry is left as it was.
pub fn plan_bar_subscription(
    is_active: bool,
    registry: &mut BarTypeRegistry,
    symbol: &str,
    timeframe: &str,
    bar_type: &str,
) -> (r: Result<Mt5ConfigRequest, Mt5Error>)
    requires
        old(registry).wf(),
    ensures
        final(registry).wf(),
        !is_active ==> r == Err::<Mt5ConfigRequest, Mt5Error>(Mt5Error::NotConnected),
        is_active ==> (r is Ok <==> spec_parse_bar_timeframe(timeframe@) is Ok),
        r matches Ok(req) ==> {
            &&& req.action@ == "CONFIG"@
            &&& req.symbol@ == symbol@
            &&& spec_parse_bar_timeframe(timeframe@) == Ok::<Mt5TimeFrame, Mt5Error>(req.chart_tf)
            &&& final(registry)@ == old(registry)@.insert((symbol@, timeframe@), bar_type@)
        },
        r is Err ==> final(registry)@ == old(registry)@,
        is_active && spec_parse_bar_timeframe(timeframe@) is Err ==> (r matches Err(Mt5Error::Parse(m))
            && m@ == invalid_timeframe_text(timeframe@)),
{
    if !is_active {
        return Err(Mt5Error::NotConnected);
    }
    let tf = parse_bar_timeframe(timeframe)?;
    registry.insert(symbol, timeframe, bar_type);
    Ok(Mt5ConfigRequest::new(symbol, tf))
}

/// Decides a quote subscription: the client must be running; then one tick
/// `CONFIG` request is sent for the symbol of each instrument, in order.
pub fn plan_quote_subscriptions(is_active: bool, instrument_ids: &Vec<InstrumentId>) -> (r: Result<
    Vec<Mt5ConfigRequest>,
    Mt5Error,
>)
    ensures
        !is_active ==> r == Err::<Vec<Mt5ConfigRequest>, Mt5Error>(Mt5Error::NotConnected),
        is_active ==> r is Ok,
        r matches Ok(reqs) ==> {
            &&& reqs@.len() == instrument_ids@.len()
            &&& forall|i: int|
                0 <= i < reqs@.len() ==> {
                    &&& (#[trigger] reqs@[i]).action@ == "CONFIG"@
                    &&& reqs@[i].symbol@ == instrument_ids@[i].symbol@
                    &&& reqs@[i].chart_tf == Mt5TimeFrame::Tick
                }
        },
{
    if !is_active {
        return Err(Mt5Error::NotConnected);
    }
    let mut reqs: Vec<Mt5ConfigRequest> = Vec::new();
    let mut i: usize = 0;
    while i < instrument_ids.len()
        invariant
            i <= instrument_ids@.len(),
            reqs@.len() == i,
            forall|j: int|
                0 <= j < i ==> {
                    &&& (#[trigger] reqs@[j]).action@ == "CONFIG"@
                    &&& reqs@[j].symbol@ == instrument_ids@[j].symbol@
                    &&& reqs@[j].chart_tf == Mt5TimeFrame::Tick
                },
        decreases instrument_ids@.len() - i,
    {
        reqs.push(Mt5ConfigRequest::new(instrument_ids[i].symbol.as_str(), Mt5TimeFrame::Tick));
        i = i + 1;
    }
    Ok(reqs)
}

/// The MT5 order type of an order with the given side and type.
pub open spec fn spec_action_type(side: OrderSide, order_type: OrderType) -> Option<Mt5OrderType> {
    match (side, order_type) {
        (OrderSide::Buy, OrderType::Market) => Some(Mt5OrderType::OrderTypeBuy),
        (OrderSide::Buy, OrderType::Limit) => Some(Mt5OrderType::OrderTypeBuyLimit),
        (OrderSide::Buy, OrderType::StopMarket) => Some(Mt5OrderType::OrderTypeBuyStop),
        (OrderSide::Buy, OrderType::StopLimit) => Some(Mt5OrderType::OrderTypeBuyStopLimit),
        (OrderSide::Sell, OrderType::Market) => Some(Mt5OrderType::OrderTypeSell),
        (OrderSide::Sell, OrderType::Limit) => Some(Mt5OrderType::OrderTypeSellLimit),
        (OrderSide::Sell, OrderType::StopMarket) => Some(Mt5OrderType::OrderTypeSellStop),
        (OrderSide::Sell, OrderType::StopLimit) => Some(Mt5OrderType::OrderTypeSellStopLimit),
        _ => None,
    }
}

/// The MT5 order type (`actionType`) of a new order. Only buy and sell orders
/// of the market, limit, stop-market and stop-limit types can be sent; the
/// side is checked first.
pub fn mt5_action_type(side: OrderSide, order_type: OrderType) -> (r: Result<Mt5OrderType, Mt5Error>)
    ensures
        r is Ok <==> spec_action_type(side, order_type) is Some,
        r matches Ok(t) ==> spec_action_type(side, order_type) == Some(t),
        r matches Err(e) ==> e matches Mt5Error::Parse(m) && (if side == OrderSide::NoOrderSide {
            m@ == "Invalid order side: "@ + side.spec_debug_name()
        } else {
            m@ == "Unsupported order type: "@ + order_type.spec_debug_name()
        }),
{
    match side {
        OrderSide::Buy => match order_type {
            OrderType::Market => Ok(Mt5OrderType::OrderTypeBuy),
            OrderType::Limit => Ok(Mt5OrderType::OrderTypeBuyLimit),
            OrderType::StopMarket => Ok(Mt5OrderType::OrderTypeBuyStop),
            OrderType::StopLimit => Ok(Mt5OrderType::OrderTypeBuyStopLimit),
            _ => Err(Mt5Error::Parse(concat2("Unsupported order type: ", order_type.debug_name()))),
        },
        OrderSide::Sell => match order_type {
            OrderType::Market => Ok(Mt5OrderType::OrderTypeSell),
            OrderType::Limit => Ok(Mt5OrderType::OrderTypeSellLimit),
            OrderType::StopMarket => Ok(Mt5OrderType::OrderTypeSellStop),
            OrderType::StopLimit => Ok(Mt5OrderType::OrderTypeSellStopLimit),
            _ => Err(Mt5Error::Parse(concat2("Unsupported order type: ", order_type.debug_name()))),
        },
        OrderSide::NoOrderSide => Err(Mt5Error::Parse(concat2("Invalid order side: ", side.debug_name()))),
    }
}

/// Seconds in the 90 days after which a good-till-cancelled MT5 order expires.
pub const GTC_EXPIRATION_SECS: u64 = 7_776_000;

/// The expiration time sent with a new order: 90 days after `now_secs` (MT5
/// rejects 0, which would be the epoch).
pub fn gtc_expiration(now_secs: u64) -> (e: u64)
    requires
        now_secs + GTC_EXPIRATION_SECS <= u64::MAX,
    ensures
        e == now_secs + 90 * 24 * 60 * 60,
{
    now_secs + GTC_EXPIRATION_SECS
}

/// The parameters of a `HISTORY` data request.
#[derive(Debug, Clone, Copy, PartialEq, Eq)]
pub struct HistoryWindow {
    pub from_date: i64,
    pub to_date: i64,
    pub count: i32,
}

/// The window of a `HISTORY` request: from `start` (default the epoch) to
/// `end` (default `now_secs`), at most `count` bars (default 1000).
pub fn history_window(start: Option<i64>, end: Option<i64>, now_secs: i64, count: Option<i32>) -> (w:
    HistoryWindow)
    ensures
        w.from_date == (match start { Some(s) => s, None => 0 }),
        w.to_date == (match end { Some(e) => e, None => now_secs }),
        w.count == (match count { Some(c) => c, None => 1000 }),
{
    HistoryWindow {
        from_date: match start { Some(s) => s, None => 0 },
        to_date: match end { Some(e) => e, None => now_secs },
        count: match count { Some(c) => c, None => 1000 },
    }
}

/// How many messages of the data socket are read, at most, while waiting for
/// the answer to a `HISTORY` request.
pub const HISTORY_MAX_ATTEMPTS: u32 = 10;

/// What to do with one message read while waiting for a `HISTORY` answer.
#[derive(Debug, Clone, Copy, PartialEq, Eq, Structural)]
pub enum HistoryStep {
    /// The message is the answer: hand it back.
    Accept,
    /// Skip the message and read the next one.
    ReadNext,
    /// Give up: no answer came within the attempts allowed.
    GiveUp,
}

/// Decides on the message read at `attempt` (counting from 1): a JSON object
/// with both `symbol` and `timeframe` fields is the answer; any other message
/// is skipped until the attempts run out.
pub fn history_step(attempt: u32, is_json: bool, has_symbol: bool, has_timeframe: bool) -> (s:
    HistoryStep)
    requires
        1 <= attempt <= HISTORY_MAX_ATTEMPTS,
    ensures
        s == (if is_json && has_symbol && has_timeframe {
            HistoryStep::Accept
        } else if attempt < HISTORY_MAX_ATTEMPTS {
            HistoryStep::ReadNext
        } else {
            HistoryStep::GiveUp
        }),
{
    if is_json && has_symbol && has_timeframe {
        HistoryStep::Accept
    } else if attempt < HISTORY_MAX_ATTEMPTS {
        HistoryStep::ReadNext
    } else {
        HistoryStep::GiveUp
    }
}

/// The error once no `HISTORY` answer has come.
pub fn history_give_up_error() -> (e: Mt5Error)
    ensures
        e matches Mt5Error::Parse(m) && m@ == "No valid HISTORY response received after 10 attempts"@,
{
    Mt5Error::Parse(String::from_str("No valid HISTORY response received after 10 attempts"))
}

/// The kind of a message on the live socket.
#[derive(Debug, Clone, Copy, PartialEq, Eq, Structural)]
pub enum LiveMessageKind {
    /// A tick: `data` is `[timestamp_ms, bid, ask]`.
    Tick,
    /// A bar: `data` is `[timestamp_sec, open, high, low, close, volume]`.
    Bar,
}

/// Routes a live message on its `timeframe` field: `TICK` is tick data, any
/// other timeframe is bar data, and a message without the field is an error.
pub fn classify_live_message(timeframe: Option<&str>) -> (r: Result<LiveMessageKind, Mt5Error>)
    ensures
        timeframe is None ==> (r matches Err(Mt5Error::Parse(m)) && m@
            == "Missing 'timeframe' field in live message"@),
        timeframe matches Some(t) ==> r == Ok::<LiveMessageKind, Mt5Error>(
            if t@ == "TICK"@ {
                LiveMessageKind::Tick
            } else {
                LiveMessageKind::Bar
            },
        ),
{
    match timeframe {
        None => Err(Mt5Error::Parse(String::from_str("Missing 'timeframe' field in live message"))),
        Some(t) => if crate::text::str_eq(t, "TICK") {
            Ok(LiveMessageKind::Tick)
        } else {
            Ok(LiveMessageKind::Bar)
        },
    }
}

/// Checks that a live tick carries `[timestamp_ms, bid, ask]`.
pub fn check_live_tick_len(len: usize) -> (r: Result<(), Mt5Error>)
    ensures
        r is Ok <==> len >= 3,
        r matches Err(e) ==> e matches Mt5Error::Parse(m) && m@ == "Invalid tick data array length: expected 3, got "@
            + decimal(len as nat),
{
    if len < 3 {
        let mut m = String::from_str("Invalid tick data array length: expected 3, got ");
        push_decimal(&mut m, len as u64);
        Err(Mt5Error::Parse(m))
    } else {
        Ok(())
    }
}

/// Checks the answer to a request on the system socket: the bridge answers
/// `ERROR` when it could not read the request.
pub fn check_sys_response(response: String) -> (r: Result<String, Mt5Error>)
    ensures
        response@ == "ERROR"@ ==> (r matches Err(Mt5Error::Parse(m)) && m@
            == "MT5 returned ERROR - deserialization failed on MT5 side"@),
        response@ != "ERROR"@ ==> r == Ok::<String, Mt5Error>(response),
{
    if crate::text::str_eq(response.as_str(), "ERROR") {
        Err(Mt5Error::Parse(String::from_str("MT5 returned ERROR - deserialization failed on MT5 side")))
    } else {
        Ok(response)
    }
}

/// The error for a live message whose symbol has no cached instrument.
pub fn instrument_not_found(symbol: &str) -> (e: Mt5Error)
    ensures
        e matches Mt5Error::InstrumentNotFound(id) && id.symbol@ == symbol@ && id.venue@ == "MT5"@,
{
    Mt5Error::InstrumentNotFound(InstrumentId::new(symbol, "MT5"))
}

/// The bar type a live bar of `symbol` at `timeframe` belongs to, or the
/// error that no bars were subscribed for them.
pub fn lookup_bar_type(registry: &BarTypeRegistry, symbol: &str, timeframe: &str) -> (r: Result<
    String,
    Mt5Error,
>)
    requires
        registry.wf(),
    ensures
        r is Ok <==> registry@.contains_key((symbol@, timeframe@)),
        r matches Ok(b) ==> b@ == registry@[(symbol@, timeframe@)],
        r matches Err(e) ==> e matches Mt5Error::Parse(m) && m@ == "No bar_type mapping found for symbol="@
            + symbol@ + ", timeframe="@ + timeframe@ + ". Did you call subscribe_bars()?"@,
{
    match registry.get(symbol, timeframe) {
        Some(b) => Ok(b),
        None => {
            let mut m = concat3("No bar_type mapping found for symbol=", symbol, ", timeframe=");
            m.append(timeframe);
            m.append(". Did you call subscribe_bars()?");
            Err(Mt5Error::Parse(m))
        },
    }
}

/// The kind of a message on the stream socket.
#[derive(Debug, Clone, Copy, PartialEq, Eq, Structural)]
pub enum StreamMessageKind {
    TradeResponse,
    OrderUpdate,
    PositionUpdate,
    Raw,
}

/// Classifies a stream message by the fields it has, trying in turn a trade
/// response (`retcode`), an order update (`ticket` and `volume_initial`) and
/// a position update (`id` and `open`); a message that has the fields of a
/// kind but does not decode as it falls through to the next kind, and what
/// matches none is passed on raw.
pub fn classify_stream_message(
    has_retcode: bool,
    decodes_as_trade: bool,
    has_ticket_and_volume_initial: bool,
    decodes_as_order: bool,
    has_id_and_open: bool,
    decodes_as_position: bool,
) -> (k: StreamMessageKind)
    ensures
        k == (if has_retcode && decodes_as_trade {
            StreamMessageKind::TradeResponse
        } else if has_ticket_and_volume_initial && decodes_as_order {
            StreamMessageKind::OrderUpdate
        } else if has_id_and_open && decodes_as_position {
            StreamMessageKind::PositionUpdate
        } else {
            StreamMessageKind::Raw
        }),
{
    if has_retcode && decodes_as_trade {
        StreamMessageKind::TradeResponse
    } else if has_ticket_and_volume_initial && decodes_as_order {
        StreamMessageKind::OrderUpdate
    } else if has_id_and_open && decodes_as_position {
        StreamMessageKind::PositionUpdate
    } else {
        StreamMessageKind::Raw
    }
}

/// The bar timeframes a subscription accepts, by their MT5 names, with their
/// length in minutes, in the order the error text lists them.
pub open spec fn supported_bar_timeframes() -> Seq<(Seq<char>, i64)> {
    seq![
        ("M1"@, 1),
        ("M5"@, 5),
        ("M15"@, 15),
        ("M30"@, 30),
        ("H1"@, 60),
        ("H4"@, 240),
        ("D1"@, 1440),
        ("W1"@, 10080),
        ("MN1"@, 43200),
    ]
}

/// Every timeframe the error text lists as supported is read by its MT5
/// name, is written back under that same name, and has the length its name
/// says (`M` minutes, `H` hours, `D` a day, `W` a week, `MN` a month of 30
/// days); every bar timeframe is one of them, and tick data is refused.
pub proof fn lemma_supported_bar_timeframes(tf: Mt5TimeFrame)
    ensures
        forall|i: int|
            0 <= i < supported_bar_timeframes().len() ==> (spec_parse_bar_timeframe(
                #[trigger] supported_bar_timeframes()[i].0,
            ) matches Ok(t) && t.spec_name() == supported_bar_timeframes()[i].0
                && t.spec_minutes() == supported_bar_timeframes()[i].1),
        tf != Mt5TimeFrame::Tick ==> exists|i: int|
            0 <= i < supported_bar_timeframes().len() && #[trigger] supported_bar_timeframes()[i].0
                == tf.spec_name(),
        spec_parse_bar_timeframe(Mt5TimeFrame::Tick.spec_name()) is Err,
{
    lemma_timeframe_name_roundtrip(Mt5TimeFrame::Tick);
    lemma_timeframe_name_roundtrip(Mt5TimeFrame::M1);
    lemma_timeframe_name_roundtrip(Mt5TimeFrame::M5);
    lemma_timeframe_name_roundtrip(Mt5TimeFrame::M15);
    lemma_timeframe_name_roundtrip(Mt5TimeFrame::M30);
    lemma_timeframe_name_roundtrip(Mt5TimeFrame::H1);
    lemma_timeframe_name_roundtrip(Mt5TimeFrame::H4);
    lemma_timeframe_name_roundtrip(Mt5TimeFrame::D1);
    lemma_timeframe_name_roundtrip(Mt5TimeFrame::W1);
    lemma_timeframe_name_roundtrip(Mt5TimeFrame::MN1);
    let l = supported_bar_timeframes();
    assert(l[0].0 == Mt5TimeFrame::M1.spec_name());
    assert(l[1].0 == Mt5TimeFrame::M5.spec_name());
    assert(l[2].0 == Mt5TimeFrame::M15.spec_name());
    assert(l[3].0 == Mt5TimeFrame::M30.spec_name());
    assert(l[4].0 == Mt5TimeFrame::H1.spec_name());
    assert(l[5].0 == Mt5TimeFrame::H4.spec_name());
    assert(l[6].0 == Mt5TimeFrame::D1.spec_name());
    assert(l[7].0 == Mt5TimeFrame::W1.spec_name());
    assert(l[8].0 == Mt5TimeFrame::MN1.spec_name());
}

} // verus!
