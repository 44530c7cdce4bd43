use std::path::Path;

use trading_adapters::mt5::common::constants::retcode;
use trading_adapters::mt5::common::constants::{is_rejection, is_success, retcode_description};
use trading_adapters::mt5::common::enums::{
    Mt5OrderState, Mt5OrderType, Mt5PositionType, Mt5TickFlags, Mt5TimeFrame,
};
use trading_adapters::mt5::common::parse::{
    parse_instrument_id, parse_timestamp_ms, parse_timestamp_s, ParseError,
};
use trading_adapters::mt5::common::testing::get_test_data_dir;
use trading_adapters::mt5::test_data::{HTTP_GET_ACCOUNT, WS_BAR_M1_SINGLE, WS_TICK_SINGLE};
use trading_adapters::mt5::websocket::client::{check_live_tick_len, classify_live_message, LiveMessageKind};

#[test]
fn test_is_success() {
    assert!(is_success(retcode::DONE));
    assert!(is_success(retcode::DONE_PARTIAL));
    assert!(is_success(retcode::PLACED));
    assert!(!is_success(retcode::REJECT));
    assert!(!is_success(retcode::INVALID));
}

#[test]
fn test_is_rejection() {
    assert!(is_rejection(retcode::REJECT));
    assert!(is_rejection(retcode::INVALID));
    assert!(is_rejection(retcode::NO_MONEY));
    assert!(!is_rejection(retcode::DONE));
    assert!(!is_rejection(retcode::REQUOTE));
}

#[test]
fn test_retcode_description() {
    assert_eq!(retcode_description(retcode::DONE), "Request completed");
    assert_eq!(retcode_description(retcode::NO_MONEY), "Not enough money");
    assert_eq!(retcode_description(99999), "Unknown retcode");
}

#[test]
fn test_get_test_data_dir() {
    let dir = get_test_data_dir("src/mt5");
    let path = Path::new(&dir);
    assert!(path.ends_with("test_data"));
    assert!(
        path.exists(),
        "test_data directory does not exist at {}",
        path.display()
    );
}

#[test]
fn test_parse_instrument_id() {
    let id = parse_instrument_id("EURUSD").unwrap();
    assert_eq!(id.symbol.as_str(), "EURUSD");
    assert_eq!(id.venue.as_str(), "MT5");
}

#[test]
fn test_parse_timestamp_ms() {
    let ms = 1709891679000_i64;
    let ns = parse_timestamp_ms(ms).unwrap();
    assert_eq!(ns, 1709891679000000000);
}

#[test]
fn test_parse_timestamp_s() {
    let s = 1709891679_i64;
    let ns = parse_timestamp_s(s).unwrap();
    assert_eq!(ns, 1709891679000000000);
}

#[test]
fn test_retcodes_are_success_or_rejection_or_retryable() {
    for code in 10004..=10046 {
        let s = is_success(code);
        let r = is_rejection(code);
        assert!(!(s && r), "code {code} is both success and rejection");
        if !s && !r {
            assert!(code == retcode::REQUOTE || code == retcode::PRICE_CHANGED);
        }
    }
}

#[test]
fn test_retcode_description_other_codes() {
    assert_eq!(retcode_description(retcode::REQUOTE), "Requote");
    assert_eq!(retcode_description(retcode::PLACED), "Order placed");
    assert_eq!(retcode_description(0), "Unknown retcode");
    assert_eq!(retcode_description(-1), "Unknown retcode");
}

#[test]
fn test_parse_timestamp_negative_is_error() {
    assert_eq!(parse_timestamp_ms(-1), Err(ParseError::NegativeTimestamp(-1)));
    assert_eq!(parse_timestamp_s(-5), Err(ParseError::NegativeTimestamp(-5)));
}

#[test]
fn test_parse_timestamp_overflow_is_error() {
    assert_eq!(
        parse_timestamp_s(i64::MAX),
        Err(ParseError::TimestampOverflow(i64::MAX))
    );
    // The last second that fits in 64-bit nanoseconds.
    assert_eq!(parse_timestamp_s(18_446_744_073), Ok(18_446_744_073_000_000_000));
    assert_eq!(
        parse_timestamp_s(18_446_744_074),
        Err(ParseError::TimestampOverflow(18_446_744_074))
    );
    assert_eq!(parse_timestamp_ms(0), Ok(0));
}

#[test]
fn test_seconds_and_millis_agree() {
    for s in [0_i64, 1, 1_577_836_800, 1_709_891_679] {
        assert_eq!(parse_timestamp_s(s), parse_timestamp_ms(s * 1000));
    }
}

#[test]
fn test_timeframe_names_round_trip() {
    let all = [
        Mt5TimeFrame::Tick,
        Mt5TimeFrame::M1,
        Mt5TimeFrame::M5,
        Mt5TimeFrame::M15,
        Mt5TimeFrame::M30,
        Mt5TimeFrame::H1,
        Mt5TimeFrame::H4,
        Mt5TimeFrame::D1,
        Mt5TimeFrame::W1,
        Mt5TimeFrame::MN1,
    ];
    for tf in all {
        assert_eq!(Mt5TimeFrame::from_name(tf.name()), Some(tf));
    }
    assert_eq!(Mt5TimeFrame::from_name("M2"), None);
    assert_eq!(Mt5TimeFrame::from_name("m1"), None);
}

#[test]
fn test_timeframe_minutes() {
    assert_eq!(Mt5TimeFrame::Tick.as_minutes(), 0);
    assert_eq!(Mt5TimeFrame::M1.as_minutes(), 1);
    assert_eq!(Mt5TimeFrame::M15.as_minutes(), 15);
    assert_eq!(Mt5TimeFrame::H4.as_minutes(), 240);
    assert_eq!(Mt5TimeFrame::D1.as_minutes(), 1440);
    assert_eq!(Mt5TimeFrame::W1.as_minutes(), 10080);
    assert_eq!(Mt5TimeFrame::MN1.as_minutes(), 43200);
}

#[test]
fn test_order_type_names() {
    assert_eq!(Mt5OrderType::OrderTypeBuy.as_str(), "ORDER_TYPE_BUY");
    assert_eq!(Mt5OrderType::OrderTypeSellStopLimit.as_str(), "ORDER_TYPE_SELL_STOP_LIMIT");
    assert_eq!(Mt5OrderType::OrderTypeCloseBy.as_str(), "ORDER_TYPE_CLOSE_BY");
}

#[test]
fn test_order_state_codes_round_trip() {
    for code in 0..=9 {
        let st = Mt5OrderState::from_code(code).unwrap();
        assert_eq!(st.code(), code);
    }
    assert_eq!(Mt5OrderState::from_code(10), None);
    assert_eq!(Mt5OrderState::from_code(-1), None);
    assert_eq!(Mt5OrderState::from_code(4), Some(Mt5OrderState::Filled));
}

#[test]
fn test_position_type_codes() {
    assert_eq!(Mt5PositionType::from_code(0), Some(Mt5PositionType::Buy));
    assert_eq!(Mt5PositionType::from_code(1), Some(Mt5PositionType::Sell));
    assert_eq!(Mt5PositionType::from_code(2), None);
    assert_eq!(Mt5PositionType::Sell.code(), 1);
}

#[test]
fn test_tick_flags() {
    let flags = Mt5TickFlags(Mt5TickFlags::BID | Mt5TickFlags::ASK | Mt5TickFlags::BUY);
    assert!(flags.has_bid());
    assert!(flags.has_ask());
    assert!(flags.is_buy());
    assert!(!flags.is_sell());
    assert!(!flags.has_last());
    assert!(!flags.has_volume());
    let flags = Mt5TickFlags(Mt5TickFlags::LAST | Mt5TickFlags::VOLUME | Mt5TickFlags::SELL);
    assert!(flags.has_last());
    assert!(flags.has_volume());
    assert!(flags.is_sell());
    assert!(!flags.has_bid());
}

#[test]
fn test_test_data_dir_joins_with_separator() {
    assert_eq!(get_test_data_dir("/crate"), "/crate/test_data");
    assert_eq!(get_test_data_dir("/crate/"), "/crate/test_data");
    assert_eq!(get_test_data_dir(""), "test_data");
}


#[test]
fn test_sample_tick_message() {
    assert!(WS_TICK_SINGLE.contains("BTCUSD"));
    assert!(WS_TICK_SINGLE.contains("TICK"));
    assert!(WS_TICK_SINGLE.contains("CONNECTED"));
    let value: serde_json::Value = serde_json::from_str(WS_TICK_SINGLE).unwrap();
    assert_eq!(value["symbol"], "BTCUSD");
    let timeframe = value["timeframe"].as_str();
    assert_eq!(classify_live_message(timeframe), Ok(LiveMessageKind::Tick));
    let data = value["data"].as_array().unwrap();
    assert_eq!(check_live_tick_len(data.len()), Ok(()));
    let ms = data[0].as_i64().unwrap();
    assert_eq!(parse_timestamp_ms(ms), Ok(1764162271192000000));
}

#[test]
fn test_sample_bar_message() {
    assert!(WS_BAR_M1_SINGLE.contains("XAUUSD"));
    assert!(WS_BAR_M1_SINGLE.contains("M1"));
    let value: serde_json::Value = serde_json::from_str(WS_BAR_M1_SINGLE).unwrap();
    assert_eq!(classify_live_message(value["timeframe"].as_str()), Ok(LiveMessageKind::Bar));
    assert_eq!(value["data"].as_array().unwrap().len(), 6);
}

#[test]
fn test_sample_account_answer() {
    let account: serde_json::Value = serde_json::from_str(HTTP_GET_ACCOUNT).unwrap();
    assert_eq!(account["error"], false);
    assert!(account["balance"].is_number());
    assert!(account["equity"].is_number());
    assert!(account["margin"].is_number());
}
