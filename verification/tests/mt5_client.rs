use trading_adapters::model::{InstrumentId, OrderSide, OrderStatus, OrderType, TimeInForce};
use trading_adapters::mt5::common::enums::{Mt5OrderType, Mt5TimeFrame};
use trading_adapters::mt5::websocket::client::{
    account_id_text, check_live_tick_len, check_sys_response, classify_live_message, classify_stream_message,
    gtc_expiration, history_give_up_error, history_step, history_window, instrument_not_found,
    lookup_bar_type, mt5_action_type, parse_bar_timeframe, plan_bar_subscription,
    plan_quote_subscriptions, HistoryStep, LiveMessageKind, Mt5ClientConfig, Mt5Error,
    StreamMessageKind,
};
use trading_adapters::mt5::websocket::messages::{
    action_request_json, cancel_request_json, int_flag_to_bool, history_request_json, ticket_from_venue_order_id,
    trade_history_request_json, Mt5ConfigRequest,
};
use trading_adapters::mt5::websocket::parse::{
    bar_event_nanos, check_bar_data_len, decide_order_status, mt5_order_side, mt5_order_status,
    mt5_order_type, OrderPriceField,
};
use trading_adapters::mt5::websocket::registry::BarTypeRegistry;

#[test]
fn test_config_default() {
    let config = Mt5ClientConfig::default();
    assert_eq!(config.host, "localhost");
    assert_eq!(config.live_port, 2203);
    assert_eq!(config.stream_port, 2204);
    assert_eq!(config.sys_port, 2201);
}

#[test]
fn test_mt5_error_display() {
    let error = Mt5Error::Connection("test error".to_string());
    assert_eq!(error.message(), "Connection error: test error");
}

#[test]
fn test_error_messages() {
    assert_eq!(Mt5Error::Zmq("x".to_string()).message(), "ZeroMQ error: x");
    assert_eq!(Mt5Error::Json("bad".to_string()).message(), "JSON parse error: bad");
    assert_eq!(Mt5Error::Parse("p".to_string()).message(), "Parse error: p");
    assert_eq!(Mt5Error::NotConnected.message(), "Not connected");
    assert_eq!(Mt5Error::Anyhow("a".to_string()).message(), "Anyhow error: a");
    assert_eq!(
        instrument_not_found("EURUSD").message(),
        "Instrument not found: EURUSD.MT5"
    );
}

#[test]
fn test_config_from_options() {
    let c = Mt5ClientConfig::from_options(None, Some(1), Some(2), Some(3), Some(4));
    assert_eq!(c.host, "localhost");
    assert_eq!(c.data_port, 2202);
    assert_eq!(c.live_port, 2203);
    let c = Mt5ClientConfig::from_options(Some("10.0.0.5".to_string()), None, Some(7000), None, None);
    assert_eq!(c.host, "10.0.0.5");
    assert_eq!(c.data_port, 2202);
    assert_eq!(c.live_port, 7000);
    assert_eq!(c.stream_port, 2204);
    assert_eq!(c.sys_port, 2201);
}

#[test]
fn test_config_endpoint() {
    let c = Mt5ClientConfig::default();
    assert_eq!(c.endpoint(c.sys_port), "tcp://localhost:2201");
    assert_eq!(c.endpoint(0), "tcp://localhost:0");
    assert_eq!(c.endpoint(65535), "tcp://localhost:65535");
}

#[test]
fn test_account_id_text() {
    assert_eq!(account_id_text("12345678"), "MT5-12345678");
}

#[test]
fn test_parse_bar_timeframe() {
    assert_eq!(parse_bar_timeframe("M5"), Ok(Mt5TimeFrame::M5));
    assert_eq!(parse_bar_timeframe("MN1"), Ok(Mt5TimeFrame::MN1));
    assert_eq!(
        parse_bar_timeframe("TICK"),
        Err(Mt5Error::Parse(
            "Invalid MT5 timeframe: TICK. Supported: M1, M5, M15, M30, H1, H4, D1, W1, MN1".to_string()
        ))
    );
    assert!(parse_bar_timeframe("M2").is_err());
}

fn config_fields(r: &Mt5ConfigRequest) -> (String, String, Mt5TimeFrame) {
    (r.action.clone(), r.symbol.clone(), r.chart_tf)
}

#[test]
fn test_plan_bar_subscription_records_bar_type() {
    let mut reg = BarTypeRegistry::new();
    let req = plan_bar_subscription(true, &mut reg, "XAUUSD", "M1", "XAUUSD.MT5-1-MINUTE-LAST-EXTERNAL")
        .unwrap();
    assert_eq!(
        config_fields(&req),
        ("CONFIG".to_string(), "XAUUSD".to_string(), Mt5TimeFrame::M1)
    );
    assert_eq!(reg.len(), 1);
    assert_eq!(
        lookup_bar_type(&reg, "XAUUSD", "M1"),
        Ok("XAUUSD.MT5-1-MINUTE-LAST-EXTERNAL".to_string())
    );
}

#[test]
fn test_plan_bar_subscription_errors_leave_registry() {
    let mut reg = BarTypeRegistry::new();
    assert_eq!(
        plan_bar_subscription(false, &mut reg, "XAUUSD", "M1", "b").unwrap_err(),
        Mt5Error::NotConnected
    );
    assert!(plan_bar_subscription(true, &mut reg, "XAUUSD", "TICK", "b").is_err());
    assert_eq!(reg.len(), 0);
}

#[test]
fn test_registry_read_after_write() {
    let mut reg = BarTypeRegistry::new();
    reg.insert("EURUSD", "M1", "first");
    reg.insert("EURUSD", "M5", "other");
    reg.insert("EURUSD", "M1", "second");
    assert_eq!(reg.len(), 2);
    assert_eq!(reg.get("EURUSD", "M1"), Some("second".to_string()));
    assert_eq!(reg.get("EURUSD", "M5"), Some("other".to_string()));
    assert_eq!(reg.get("GBPUSD", "M1"), None);
}

#[test]
fn test_lookup_bar_type_missing() {
    let reg = BarTypeRegistry::new();
    assert_eq!(
        lookup_bar_type(&reg, "EURUSD", "H1"),
        Err(Mt5Error::Parse(
            "No bar_type mapping found for symbol=EURUSD, timeframe=H1. Did you call subscribe_bars()?"
                .to_string()
        ))
    );
}

#[test]
fn test_plan_quote_subscriptions() {
    let ids = vec![InstrumentId::new("EURUSD", "MT5"), InstrumentId::new("BTCUSD", "MT5")];
    let reqs = plan_quote_subscriptions(true, &ids).unwrap();
    assert_eq!(reqs.len(), 2);
    assert_eq!(
        config_fields(&reqs[1]),
        ("CONFIG".to_string(), "BTCUSD".to_string(), Mt5TimeFrame::Tick)
    );
    assert_eq!(plan_quote_subscriptions(false, &ids).unwrap_err(), Mt5Error::NotConnected);
}

#[test]
fn test_mt5_action_type() {
    assert_eq!(mt5_action_type(OrderSide::Buy, OrderType::Market), Ok(Mt5OrderType::OrderTypeBuy));
    assert_eq!(
        mt5_action_type(OrderSide::Sell, OrderType::StopLimit),
        Ok(Mt5OrderType::OrderTypeSellStopLimit)
    );
    assert_eq!(
        mt5_action_type(OrderSide::Buy, OrderType::MarketIfTouched),
        Err(Mt5Error::Parse("Unsupported order type: MarketIfTouched".to_string()))
    );
    assert_eq!(
        mt5_action_type(OrderSide::NoOrderSide, OrderType::Market),
        Err(Mt5Error::Parse("Invalid order side: NoOrderSide".to_string()))
    );
}

#[test]
fn test_action_type_reads_back() {
    let sides = [OrderSide::Buy, OrderSide::Sell];
    let types = [OrderType::Market, OrderType::Limit, OrderType::StopMarket, OrderType::StopLimit];
    for side in sides {
        for ty in types {
            let name = mt5_action_type(side, ty).unwrap().as_str();
            assert_eq!(mt5_order_side(name), side);
            assert_eq!(mt5_order_type(name), ty);
        }
    }
}

#[test]
fn test_gtc_expiration_is_ninety_days_later() {
    assert_eq!(gtc_expiration(1_700_000_000), 1_700_000_000 + 7_776_000);
}

#[test]
fn test_history_window_defaults() {
    let w = history_window(None, None, 1_700_000_000, None);
    assert_eq!((w.from_date, w.to_date, w.count), (0, 1_700_000_000, 1000));
    let w = history_window(Some(5), Some(9), 1_700_000_000, Some(20));
    assert_eq!((w.from_date, w.to_date, w.count), (5, 9, 20));
}

#[test]
fn test_history_step() {
    assert_eq!(history_step(1, true, true, true), HistoryStep::Accept);
    assert_eq!(history_step(1, true, true, false), HistoryStep::ReadNext);
    assert_eq!(history_step(9, false, false, false), HistoryStep::ReadNext);
    assert_eq!(history_step(10, true, false, true), HistoryStep::GiveUp);
    assert_eq!(history_step(10, true, true, true), HistoryStep::Accept);
    assert_eq!(
        history_give_up_error(),
        Mt5Error::Parse("No valid HISTORY response received after 10 attempts".to_string())
    );
}

#[test]
fn test_classify_live_message() {
    assert_eq!(classify_live_message(Some("TICK")), Ok(LiveMessageKind::Tick));
    assert_eq!(classify_live_message(Some("M1")), Ok(LiveMessageKind::Bar));
    assert_eq!(
        classify_live_message(None),
        Err(Mt5Error::Parse("Missing 'timeframe' field in live message".to_string()))
    );
}

#[test]
fn test_check_live_tick_len() {
    assert_eq!(check_live_tick_len(3), Ok(()));
    assert_eq!(
        check_live_tick_len(2),
        Err(Mt5Error::Parse("Invalid tick data array length: expected 3, got 2".to_string()))
    );
}

#[test]
fn test_classify_stream_message() {
    assert_eq!(
        classify_stream_message(true, true, true, true, true, true),
        StreamMessageKind::TradeResponse
    );
    assert_eq!(
        classify_stream_message(true, false, true, true, false, false),
        StreamMessageKind::OrderUpdate
    );
    assert_eq!(
        classify_stream_message(false, false, true, false, true, true),
        StreamMessageKind::PositionUpdate
    );
    assert_eq!(
        classify_stream_message(false, false, false, false, false, false),
        StreamMessageKind::Raw
    );
}

#[test]
fn test_order_side_type_status_from_names() {
    assert_eq!(mt5_order_side("ORDER_TYPE_BUY_LIMIT"), OrderSide::Buy);
    assert_eq!(mt5_order_side("ORDER_TYPE_SELL"), OrderSide::Sell);
    assert_eq!(mt5_order_side("ORDER_TYPE_CLOSE_BY"), OrderSide::NoOrderSide);
    assert_eq!(mt5_order_type("ORDER_TYPE_BUY_STOP_LIMIT"), OrderType::StopLimit);
    assert_eq!(mt5_order_type("ORDER_TYPE_SELL_STOP"), OrderType::StopMarket);
    assert_eq!(mt5_order_type("ORDER_TYPE_SELL_LIMIT"), OrderType::Limit);
    assert_eq!(mt5_order_type("ORDER_TYPE_BUY"), OrderType::Market);
    assert_eq!(mt5_order_status("ORDER_STATE_FILLED"), OrderStatus::Filled);
    assert_eq!(mt5_order_status("ORDER_STATE_PLACED"), OrderStatus::Filled);
    assert_eq!(mt5_order_status("ORDER_STATE_CANCELED"), OrderStatus::Canceled);
    assert_eq!(mt5_order_status("ORDER_STATE_REJECTED"), OrderStatus::Rejected);
    assert_eq!(mt5_order_status("ORDER_STATE_EXPIRED"), OrderStatus::Expired);
    assert_eq!(mt5_order_status("ORDER_STATE_PARTIAL"), OrderStatus::PartiallyFilled);
    assert_eq!(mt5_order_status("ORDER_STATE_STARTED"), OrderStatus::Accepted);
    assert_eq!(mt5_order_status("ORDER_STATE_REQUEST_ADD"), OrderStatus::Initialized);
}

#[test]
fn test_decide_order_status_limit() {
    let d = decide_order_status("ORDER_TYPE_BUY_LIMIT", "ORDER_STATE_PLACED", "O-1", 123456789, true, false);
    assert_eq!(d.order_side, OrderSide::Buy);
    assert_eq!(d.order_type, OrderType::Limit);
    assert_eq!(d.order_status, OrderStatus::Filled);
    assert_eq!(d.time_in_force, TimeInForce::Gtc);
    assert_eq!(d.venue_order_id, "123456789");
    assert_eq!(d.client_order_id, Some("O-1".to_string()));
    assert_eq!(d.price_field, OrderPriceField::LimitPrice);
}

#[test]
fn test_decide_order_status_stop_and_market() {
    let d = decide_order_status("ORDER_TYPE_SELL_STOP", "ORDER_STATE_STARTED", "", -42, true, false);
    assert_eq!(d.order_type, OrderType::StopMarket);
    assert_eq!(d.price_field, OrderPriceField::TriggerPrice);
    assert_eq!(d.venue_order_id, "-42");
    assert_eq!(d.client_order_id, None);
    let d = decide_order_status("ORDER_TYPE_SELL", "ORDER_STATE_FILLED", "", 7, true, false);
    assert_eq!(d.price_field, OrderPriceField::NoPrice);
    let d = decide_order_status("ORDER_TYPE_BUY_LIMIT", "ORDER_STATE_FILLED", "", 7, false, false);
    assert_eq!(d.price_field, OrderPriceField::NoPrice);
}

#[test]
fn test_check_bar_data_len() {
    assert_eq!(check_bar_data_len(6), Ok(()));
    assert_eq!(
        check_bar_data_len(5),
        Err("Invalid bar data array length: expected 6, got 5".to_string())
    );
}

#[test]
fn test_bar_event_nanos() {
    assert_eq!(bar_event_nanos(1_764_162_180), 1_764_162_180_000_000_000);
    assert_eq!(bar_event_nanos(1_577_836_800), 1_577_836_800_000_000_000);
    assert_eq!(bar_event_nanos(-1), (-1_000_000_000_i64) as u64);
}

#[test]
fn test_serialize_config_request() {
    let req = Mt5ConfigRequest::new("EURUSD", Mt5TimeFrame::M5);
    let json = req.to_json();
    assert!(json.contains("CONFIG"));
    assert!(json.contains("EURUSD"));
    assert!(json.contains("M5"));
}

#[test]
fn test_config_request_text() {
    let req = Mt5ConfigRequest::new("EURUSD", Mt5TimeFrame::Tick);
    assert_eq!(req.to_json(), r#"{"action":"CONFIG","symbol":"EURUSD","chartTF":"TICK"}"#);
}

#[test]
fn test_request_texts() {
    assert_eq!(action_request_json("ACCOUNT"), r#"{"action":"ACCOUNT"}"#);
    assert_eq!(action_request_json("SYMBOL_INFO"), r#"{"action":"SYMBOL_INFO"}"#);
    assert_eq!(trade_history_request_json(), r#"{"action":"HISTORY","actionType":"TRADES"}"#);
    assert_eq!(cancel_request_json(123456789), r#"{"action":"TRADE_CLOSE","ticket":123456789}"#);
    let w = history_window(Some(-5), Some(1_700_000_000), 0, None);
    assert_eq!(
        history_request_json("XAUUSD", "M1", &w),
        r#"{"action":"HISTORY","actionType":"DATA","chartTF":"M1","count":1000,"fromDate":-5,"symbol":"XAUUSD","toDate":1700000000}"#
    );
}

#[test]
fn test_ticket_from_venue_order_id() {
    assert_eq!(ticket_from_venue_order_id("123456789"), 123456789);
    assert_eq!(ticket_from_venue_order_id("+42"), 42);
    assert_eq!(ticket_from_venue_order_id("18446744073709551615"), u64::MAX);
    assert_eq!(ticket_from_venue_order_id("18446744073709551616"), 0);
    assert_eq!(ticket_from_venue_order_id("-1"), 0);
    assert_eq!(ticket_from_venue_order_id("12a"), 0);
    assert_eq!(ticket_from_venue_order_id(""), 0);
    assert_eq!(ticket_from_venue_order_id("+"), 0);
}

#[test]
fn test_int_flag_to_bool() {
    assert_eq!(int_flag_to_bool(0), Ok(false));
    assert_eq!(int_flag_to_bool(1), Ok(true));
    assert_eq!(int_flag_to_bool(7), Err("Expected 0 or 1 for boolean, got 7".to_string()));
}

#[test]
fn test_check_sys_response() {
    assert_eq!(check_sys_response("OK".to_string()), Ok("OK".to_string()));
    assert_eq!(
        check_sys_response("ERROR".to_string()),
        Err(Mt5Error::Parse("MT5 returned ERROR - deserialization failed on MT5 side".to_string()))
    );
}
