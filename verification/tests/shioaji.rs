use trading_adapters::model::AggressorSide;
use trading_adapters::shioaji::common::enums::{ShioajiMarket, ShioajiOrderEvent, ShioajiQuoteType};
use trading_adapters::shioaji::common::urls::{gateway_http_url, gateway_ws_url};
use trading_adapters::shioaji::http::client::ShioajiHttpClient;
use trading_adapters::shioaji::http::error::{check_gateway_status, ShioajiHttpError};
use trading_adapters::shioaji::http::parse::{
    aggressor_from_tick_type, contract_instrument_id, parse_tick_fields, tick_trade_id,
};
use trading_adapters::shioaji::websocket::client::{resolve_ws_url, subscribe_command, unsubscribe_command};
use trading_adapters::shioaji::websocket::error::ShioajiWsError;
use trading_adapters::shioaji::websocket::handler::{handler_step, HandlerAction, HandlerEvent, WsCommand};
use trading_adapters::shioaji::websocket::messages::{subscribe_json, WsSubscribeMsg};
use trading_adapters::shioaji::websocket::parse::{
    aggressor_from_optional_tick_type, check_top_of_book, live_trade_id,
};

#[test]
fn test_gateway_http_url() {
    assert_eq!(gateway_http_url("http://localhost:8000"), "http://localhost:8000/api");
}

#[test]
fn test_gateway_ws_url_schemes() {
    assert_eq!(gateway_ws_url("http://localhost:8000"), "ws://localhost:8000/ws");
    assert_eq!(gateway_ws_url("https://gw.example.com"), "wss://gw.example.com/ws");
    assert_eq!(gateway_ws_url("localhost:8000"), "localhost:8000/ws");
}

#[test]
fn test_http_client_urls() {
    let c = ShioajiHttpClient::new(None);
    assert_eq!(c.base_url(), "http://localhost:8000/api");
    assert_eq!(c.url_for("/status"), "http://localhost:8000/api/status");
    let c = ShioajiHttpClient::new(Some("https://gw:9000".to_string()));
    assert_eq!(c.base_url(), "https://gw:9000/api");
}

#[test]
fn test_http_error_messages() {
    assert_eq!(
        ShioajiHttpError::GatewayError { status: 404, body: "missing".to_string() }.message(),
        "Gateway error (404): missing"
    );
    assert_eq!(ShioajiHttpError::NotConnected.message(), "Gateway not connected");
    assert_eq!(
        ShioajiHttpError::NetworkError("refused".to_string()).message(),
        "HTTP request failed: refused"
    );
    assert_eq!(
        ShioajiHttpError::JsonError("eof".to_string()).message(),
        "JSON deserialization failed: eof"
    );
}

#[test]
fn test_check_gateway_status() {
    assert_eq!(check_gateway_status(200, "ok".to_string()), Ok(()));
    assert_eq!(check_gateway_status(399, String::new()), Ok(()));
    assert_eq!(
        check_gateway_status(400, "bad".to_string()),
        Err(ShioajiHttpError::GatewayError { status: 400, body: "bad".to_string() })
    );
}

#[test]
fn test_aggressor_from_tick_type() {
    assert_eq!(aggressor_from_tick_type(1), AggressorSide::Buyer);
    assert_eq!(aggressor_from_tick_type(2), AggressorSide::Seller);
    assert_eq!(aggressor_from_tick_type(0), AggressorSide::NoAggressor);
    assert_eq!(aggressor_from_optional_tick_type(Some(1)), AggressorSide::Buyer);
    assert_eq!(aggressor_from_optional_tick_type(Some(2)), AggressorSide::Seller);
    assert_eq!(aggressor_from_optional_tick_type(None), AggressorSide::NoAggressor);
}

#[test]
fn test_trade_ids() {
    assert_eq!(tick_trade_id("2330", 1740900000000000000), "2330-1740900000000000000");
    assert_eq!(live_trade_id("TXFC6", "2026-03-02 09:00:00.123456"), "TXFC6-2026-03-02 09:00:00.123456");
}

#[test]
fn test_parse_tick_fields() {
    let ts = vec![1_740_900_000_000_000_000_u64, 1_740_900_001_000_000_000];
    let types = vec![1, 2];
    let fields = parse_tick_fields("2330", &ts, &types);
    assert_eq!(fields.len(), 2);
    assert_eq!(fields[0].aggressor_side, AggressorSide::Buyer);
    assert_eq!(fields[1].aggressor_side, AggressorSide::Seller);
    assert_eq!(fields[1].trade_id, "2330-1740900001000000000");
    assert_eq!(fields[1].ts_event, 1_740_900_001_000_000_000);
}

#[test]
fn test_contract_instrument_id() {
    let id = contract_instrument_id("2330");
    assert_eq!(id.to_text(), "2330.SINOPAC");
}

#[test]
fn test_check_top_of_book() {
    assert_eq!(check_top_of_book("2330", 5, 5, 5, 5), Ok(()));
    assert_eq!(
        check_top_of_book("2330", 0, 5, 0, 5),
        Err("Empty bid/ask price arrays for 2330".to_string())
    );
}

#[test]
fn test_subscribe_json_field_order() {
    assert_eq!(
        subscribe_json("subscribe", "2330", "tick"),
        r#"{"action":"subscribe","contract_code":"2330","quote_type":"tick"}"#
    );
    let msg = WsSubscribeMsg {
        action: "unsubscribe".to_string(),
        contract_code: "TXF\"C6".to_string(),
        quote_type: "bidask".to_string(),
    };
    assert_eq!(
        msg.to_json(),
        r#"{"action":"unsubscribe","contract_code":"TXF\"C6","quote_type":"bidask"}"#
    );
}

#[test]
fn test_ws_client_commands() {
    assert_eq!(resolve_ws_url(None), "ws://localhost:8000/ws");
    assert_eq!(resolve_ws_url(Some("ws://gw/ws".to_string())), "ws://gw/ws");
    assert!(matches!(subscribe_command(false, "2330", "tick"), Err(ShioajiWsError::NotConnected)));
    match subscribe_command(true, "2330", "tick") {
        Ok(WsCommand::Subscribe { code, quote_type }) => {
            assert_eq!(code, "2330");
            assert_eq!(quote_type, "tick");
        }
        other => panic!("unexpected {other:?}"),
    }
    assert!(matches!(
        unsubscribe_command(true, "2330", "bidask"),
        Ok(WsCommand::Unsubscribe { .. })
    ));
}

#[test]
fn test_ws_error_messages() {
    assert_eq!(ShioajiWsError::NotConnected.message(), "WebSocket not connected");
    assert_eq!(ShioajiWsError::Send("closed".to_string()).message(), "Send failed: closed");
}

#[test]
fn test_handler_step() {
    assert!(matches!(handler_step(HandlerEvent::Text { decoded: true }), HandlerAction::Forward));
    assert!(matches!(
        handler_step(HandlerEvent::Text { decoded: false }),
        HandlerAction::SkipUndecodable
    ));
    assert!(matches!(handler_step(HandlerEvent::CloseFrame), HandlerAction::Stop));
    assert!(matches!(handler_step(HandlerEvent::Ping), HandlerAction::SendPong));
    assert!(matches!(handler_step(HandlerEvent::OtherFrame), HandlerAction::Ignore));
    assert!(matches!(handler_step(HandlerEvent::StreamError), HandlerAction::Stop));
    assert!(matches!(handler_step(HandlerEvent::StreamEnded), HandlerAction::Stop));
    assert!(matches!(
        handler_step(HandlerEvent::Command(WsCommand::Close)),
        HandlerAction::CloseAndStop
    ));
    assert!(matches!(handler_step(HandlerEvent::CommandsClosed), HandlerAction::CloseAndStop));
    match handler_step(HandlerEvent::Command(WsCommand::Subscribe {
        code: "2330".to_string(),
        quote_type: "tick".to_string(),
    })) {
        HandlerAction::SendText(t) => assert_eq!(
            t,
            r#"{"action":"subscribe","contract_code":"2330","quote_type":"tick"}"#
        ),
        other => panic!("unexpected {other:?}"),
    }
}

#[test]
fn test_enum_names() {
    assert_eq!(ShioajiQuoteType::Tick.as_str(), "tick");
    assert_eq!(ShioajiQuoteType::BidAsk.as_str(), "bidask");
    assert_eq!(ShioajiMarket::Options.as_str(), "options");
    for e in [
        ShioajiOrderEvent::StockOrder,
        ShioajiOrderEvent::StockDeal,
        ShioajiOrderEvent::FuturesOrder,
        ShioajiOrderEvent::FuturesDeal,
    ] {
        assert_eq!(ShioajiOrderEvent::from_name(e.as_str()), Some(e));
    }
    assert_eq!(ShioajiOrderEvent::from_name("OrderState.Other"), None);
}
