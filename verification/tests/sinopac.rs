use trading_adapters::model::{AssetClass, OptionKind, OrderSide};
use trading_adapters::sinopac::common::enums::{SinopacOrderEvent, SinopacQuoteType};
use trading_adapters::sinopac::common::instrument::{
    futures_multiplier, multiplier_or_default, options_multiplier, DEFAULT_CONTRACT_MULTIPLIER,
};
use trading_adapters::sinopac::common::parse::{
    parse_date_to_nanos, parse_instrument_id, parse_order_side, parse_taiwan_timestamp,
    taiwan_local_to_unix_nanos, taiwan_naive_to_unix_nanos, TaiwanTimeError,
};
use trading_adapters::sinopac::common::tick_size::{futures_tick_size, TickSize};
use trading_adapters::sinopac::http::parse::{
    asset_class_of, futures_contract_terms, option_kind_of, options_contract_terms,
    stock_equity_terms, ContractError,
};
use trading_adapters::sinopac::websocket::client::{resolve_ws_url, subscription_frame, SubscriptionSet};
use trading_adapters::sinopac::websocket::error::SinopacWsError;
use trading_adapters::sinopac::websocket::handler::{feed_step, FeedAction, FeedEvent};
use trading_adapters::sinopac::websocket::messages::{order_event_kind, WsSubscribeMsg};

#[test]
fn test_parse_instrument_id_stock() {
    let id = parse_instrument_id("2330").unwrap();
    assert_eq!(id.to_text(), "2330.SINOPAC");
    let id = parse_instrument_id("TXFC6").unwrap();
    assert_eq!(id.to_text(), "TXFC6.SINOPAC");
    assert_eq!(parse_instrument_id(""), Err("Invalid instrument code: ".to_string()));
}

#[test]
fn test_parse_order_side_values() {
    assert_eq!(parse_order_side("Buy"), Ok(OrderSide::Buy));
    assert_eq!(parse_order_side("Sell"), Ok(OrderSide::Sell));
    assert_eq!(parse_order_side("Unknown"), Err("Unknown Sinopac action: Unknown".to_string()));
}

#[test]
fn test_taiwan_timestamp_is_eight_hours_ahead() {
    assert_eq!(parse_taiwan_timestamp("2026-03-02 00:00:00"), Ok(1_772_380_800_000_000_000));
    assert_eq!(parse_taiwan_timestamp("2026-03-02 09:30:15.5"), Ok(1_772_415_015_500_000_000));
    assert_eq!(parse_taiwan_timestamp("1970-01-01 08:00:00"), Ok(0));
    assert_eq!(parse_taiwan_timestamp("not a time"), Err(TaiwanTimeError::Invalid));
    assert_eq!(parse_taiwan_timestamp("2026-03-02"), Err(TaiwanTimeError::Invalid));
}

#[test]
fn test_taiwan_timestamp_before_epoch_wraps() {
    assert_eq!(
        parse_taiwan_timestamp("1970-01-01 00:00:00"),
        Ok((-28_800_000_000_000_i64) as u64)
    );
}

#[test]
fn test_taiwan_timestamp_overflow() {
    assert_eq!(parse_taiwan_timestamp("2300-01-01 08:00:00"), Err(TaiwanTimeError::Overflow));
}

#[test]
fn test_taiwan_naive_to_unix_nanos() {
    assert_eq!(taiwan_naive_to_unix_nanos(28_800, 0), Ok(0));
    assert_eq!(taiwan_naive_to_unix_nanos(28_801, 250), Ok(1_000_000_250));
}

#[test]
fn test_taiwan_local_to_unix_nanos_range() {
    assert_eq!(taiwan_local_to_unix_nanos(28_800, 0), Ok(0));
    assert_eq!(taiwan_local_to_unix_nanos(10_000_000_000, 0), Err(TaiwanTimeError::Overflow));
    assert_eq!(
        taiwan_local_to_unix_nanos(-8_334_601_315_200, 0),
        Err(TaiwanTimeError::OutOfRange)
    );
    assert_eq!(
        taiwan_local_to_unix_nanos(-8_334_601_315_200 + 28_800, 0),
        Err(TaiwanTimeError::Overflow)
    );
}

#[test]
fn test_parse_date_to_nanos() {
    assert_eq!(parse_date_to_nanos("2026/06/17"), Ok(1_781_625_600_000_000_000));
    assert_eq!(parse_date_to_nanos("2026-03-02"), Ok(1_772_380_800_000_000_000));
    assert_eq!(parse_date_to_nanos("2026/13/01"), Err(TaiwanTimeError::Invalid));
    assert_eq!(parse_date_to_nanos(""), Err(TaiwanTimeError::Invalid));
}

#[test]
fn test_futures_multipliers() {
    assert_eq!(futures_multiplier("TXF"), Some(200));
    assert_eq!(futures_multiplier("MXF"), Some(50));
    assert_eq!(futures_multiplier("T5F"), Some(100));
    assert_eq!(futures_multiplier("XIF"), Some(200));
    assert_eq!(futures_multiplier("ZEF"), Some(4000));
    assert_eq!(futures_multiplier("ZFF"), Some(1000));
    assert_eq!(futures_multiplier("CDF"), None);
    assert_eq!(multiplier_or_default(futures_multiplier("CDF")), DEFAULT_CONTRACT_MULTIPLIER);
    assert_eq!(options_multiplier("TXO"), Some(50));
    assert_eq!(options_multiplier("TEO"), None);
}

#[test]
fn test_futures_tick_sizes() {
    assert_eq!(futures_tick_size("TXF"), TickSize { units: 1, precision: 0 });
    assert_eq!(futures_tick_size("ZEF"), TickSize { units: 2, precision: 1 });
    assert_eq!(futures_tick_size("CDF"), TickSize { units: 1, precision: 0 });
}

#[test]
fn test_asset_class_and_option_kind() {
    assert_eq!(asset_class_of("I"), AssetClass::Index);
    assert_eq!(asset_class_of("S"), AssetClass::Equity);
    assert_eq!(option_kind_of("Call"), Ok(OptionKind::Call));
    assert_eq!(option_kind_of("Put"), Ok(OptionKind::Put));
    assert_eq!(
        option_kind_of("call"),
        Err(ContractError::UnknownOptionRight("Unknown option_right: call".to_string()))
    );
}

#[test]
fn test_stock_equity_terms() {
    let t = stock_equity_terms("2330").unwrap();
    assert_eq!(t.instrument_id.to_text(), "2330.SINOPAC");
    assert_eq!(t.raw_symbol, "2330");
    assert_eq!(t.lot_size, 1000);
    assert!(matches!(stock_equity_terms(""), Err(ContractError::InvalidCode(_))));
}

#[test]
fn test_futures_contract_terms() {
    let (t, tick) =
        futures_contract_terms("TXFC6", "TXF", "2026/06/17", "2026/03/02", "I", 42).unwrap();
    assert_eq!(t.instrument_id.to_text(), "TXFC6.SINOPAC");
    assert_eq!(t.asset_class, AssetClass::Index);
    assert_eq!(t.exchange, "TAIFEX");
    assert_eq!(t.underlying, "TXF");
    assert_eq!(t.multiplier, 200);
    assert_eq!(t.lot_size, 1);
    assert_eq!(t.expiration_ns, 1_781_625_600_000_000_000);
    assert_eq!(t.activation_ns, 1_772_380_800_000_000_000);
    assert_eq!(tick, TickSize { units: 1, precision: 0 });
}

#[test]
fn test_futures_contract_terms_fallbacks_and_errors() {
    let (t, _) = futures_contract_terms("CDFC6", "CDF", "2026/06/17", "", "S", 42).unwrap();
    assert_eq!(t.activation_ns, 42);
    assert_eq!(t.multiplier, 2000);
    assert_eq!(t.asset_class, AssetClass::Equity);
    assert!(matches!(
        futures_contract_terms("TXFC6", "TXF", "soon", "", "I", 42),
        Err(ContractError::InvalidDate(TaiwanTimeError::Invalid))
    ));
    assert!(matches!(
        futures_contract_terms("", "TXF", "2026/06/17", "", "I", 42),
        Err(ContractError::InvalidCode(_))
    ));
}

#[test]
fn test_options_contract_terms() {
    let (t, kind) =
        options_contract_terms("TXO20000C6", "TXO", "Call", "2026/03/18", "2026/03/02", "I", 0)
            .unwrap();
    assert_eq!(kind, OptionKind::Call);
    assert_eq!(t.multiplier, 50);
    assert_eq!(t.instrument_id.to_text(), "TXO20000C6.SINOPAC");
    assert!(matches!(
        options_contract_terms("TXO20000C6", "TXO", "Straddle", "2026/03/18", "", "I", 0),
        Err(ContractError::UnknownOptionRight(_))
    ));
}

#[test]
fn test_subscription_set_read_after_write() {
    let mut subs = SubscriptionSet::new();
    subs.insert("2330", SinopacQuoteType::Tick);
    subs.insert("2330", SinopacQuoteType::Tick);
    subs.insert("2317", SinopacQuoteType::BidAsk);
    assert!(subs.contains("2330", SinopacQuoteType::Tick));
    assert!(!subs.contains("2330", SinopacQuoteType::BidAsk));
    let frames = subs.resubscribe_frames();
    assert_eq!(frames.len(), 2);
    assert_eq!(
        frames[0],
        r#"{"action":"subscribe","contract_code":"2330","quote_type":"tick"}"#
    );
    assert_eq!(
        frames[1],
        r#"{"action":"subscribe","contract_code":"2317","quote_type":"bidask"}"#
    );
    subs.remove("2330", SinopacQuoteType::Tick);
    assert!(!subs.contains("2330", SinopacQuoteType::Tick));
    assert!(subs.contains("2317", SinopacQuoteType::BidAsk));
    assert_eq!(subs.resubscribe_frames().len(), 1);
}

#[test]
fn test_subscription_frame() {
    assert_eq!(
        subscription_frame(false, true, "2330", SinopacQuoteType::Tick),
        Err(SinopacWsError::NotConnected)
    );
    assert_eq!(
        subscription_frame(true, false, "2330", SinopacQuoteType::BidAsk),
        Ok(r#"{"action":"unsubscribe","contract_code":"2330","quote_type":"bidask"}"#.to_string())
    );
    assert_eq!(resolve_ws_url(None), "ws://localhost:8000/ws");
}

#[test]
fn test_subscribe_msg_json() {
    let msg = WsSubscribeMsg {
        action: "subscribe".to_string(),
        contract_code: "2330".to_string(),
        quote_type: SinopacQuoteType::Tick,
    };
    assert_eq!(msg.to_json(), r#"{"action":"subscribe","contract_code":"2330","quote_type":"tick"}"#);
}

#[test]
fn test_feed_step() {
    assert_eq!(
        feed_step(FeedEvent::Text { reconnected: true, decoded: false }),
        FeedAction::Resubscribe
    );
    assert_eq!(feed_step(FeedEvent::Text { reconnected: false, decoded: true }), FeedAction::Forward);
    assert_eq!(
        feed_step(FeedEvent::Text { reconnected: false, decoded: false }),
        FeedAction::SkipUndecodable
    );
    assert_eq!(feed_step(FeedEvent::Close), FeedAction::Stop);
    assert_eq!(feed_step(FeedEvent::Other), FeedAction::Ignore);
}

#[test]
fn test_order_events() {
    assert_eq!(order_event_kind("OrderState.StockDeal"), Ok(SinopacOrderEvent::StockDeal));
    assert_eq!(
        order_event_kind("Bogus"),
        Err("Unknown order event type: Bogus".to_string())
    );
    assert_eq!(SinopacOrderEvent::FuturesOrder.event_type(), "futures_order");
    assert!(SinopacOrderEvent::FuturesDeal.is_deal());
    assert!(!SinopacOrderEvent::StockOrder.is_deal());
    for e in [
        SinopacOrderEvent::StockOrder,
        SinopacOrderEvent::StockDeal,
        SinopacOrderEvent::FuturesOrder,
        SinopacOrderEvent::FuturesDeal,
    ] {
        assert_eq!(SinopacOrderEvent::from_name(e.as_str()), Some(e));
    }
}
