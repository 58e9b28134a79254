use venue_feed::kinds::MessageKind;
use venue_feed::translator::{
    channel, command_frame, subscription_ceiling, translate, translate_ping, translate_subscribe,
    translate_unsubscribe, TranslateError, SYMBOL_CEILING,
};

#[test]
fn ticker_subscription_holds_the_symbols_as_they_are() {
    let symbols = vec!["BTC_USDT".to_string()];
    let frames = translate_subscribe(MessageKind::Ticker, &symbols).unwrap();
    assert_eq!(
        frames,
        vec![
            "{\"event\": \"subscribe\",\"channel\": \"spot.tickers\", \"payload\": [\"BTC_USDT\"]}"
                .to_string()
        ]
    );
    assert!(frames[0].contains("\"spot.tickers\""));
    assert!(frames[0].contains("[\"BTC_USDT\"]"));
    assert!(!frames[0].contains("Some"));
}

#[test]
fn subscription_frame_is_json_with_the_symbol_array() {
    let symbols = vec!["BTC_USDT".to_string(), "ETH_USDT".to_string()];
    let frames = translate_subscribe(MessageKind::Trade, &symbols).unwrap();
    assert_eq!(frames.len(), 1);
    let value: serde_json::Value = serde_json::from_str(&frames[0]).unwrap();
    assert_eq!(value["event"].as_str(), Some("subscribe"));
    assert_eq!(value["channel"].as_str(), Some("spot.trades"));
    let payload: Vec<String> =
        value["payload"].as_array().unwrap().iter().map(|s| s.as_str().unwrap().to_string()).collect();
    assert_eq!(payload, symbols);
}

#[test]
fn symbols_are_escaped_by_the_encoder() {
    let symbols = vec!["A\"B".to_string(), "C\\D".to_string()];
    let frames = translate_subscribe(MessageKind::Ticker, &symbols).unwrap();
    assert_eq!(
        frames[0],
        "{\"event\": \"subscribe\",\"channel\": \"spot.tickers\", \"payload\": [\"A\\\"B\",\"C\\\\D\"]}"
    );
}

#[test]
fn unsubscription_says_so() {
    let symbols = vec!["BTC_USDT".to_string()];
    assert_eq!(
        translate_unsubscribe(MessageKind::BBO, &symbols),
        Ok(vec![
            "{\"event\": \"unsubscribe\",\"channel\": \"spot.book_ticker\", \"payload\": [\"BTC_USDT\"]}"
                .to_string()
        ])
    );
    assert_eq!(
        translate(false, MessageKind::BBO, &symbols),
        translate_unsubscribe(MessageKind::BBO, &symbols)
    );
    assert_eq!(
        translate(true, MessageKind::BBO, &symbols),
        translate_subscribe(MessageKind::BBO, &symbols)
    );
}

#[test]
fn every_channel_has_its_name() {
    assert_eq!(channel(MessageKind::Trade), Some("spot.trades"));
    assert_eq!(channel(MessageKind::L2Book), Some("spot.order_book_update"));
    assert_eq!(channel(MessageKind::L2BookTopK), Some("spot.order_book"));
    assert_eq!(channel(MessageKind::BBO), Some("spot.book_ticker"));
    assert_eq!(channel(MessageKind::Ticker), Some("spot.tickers"));
    assert_eq!(channel(MessageKind::Candlestick), Some("spot.candlesticks"));
    assert_eq!(channel(MessageKind::L3Book), None);
    assert_eq!(channel(MessageKind::L2BookAll), None);
    assert_eq!(channel(MessageKind::FundingRate), None);
    assert_eq!(channel(MessageKind::Other), None);
}

#[test]
fn channels_that_the_venue_lacks_are_refused() {
    let symbols = vec!["BTC_USDT".to_string()];
    assert_eq!(
        translate_subscribe(MessageKind::L3Book, &symbols),
        Err(TranslateError::UnsupportedChannel)
    );
    assert_eq!(
        translate_unsubscribe(MessageKind::FundingRate, &symbols),
        Err(TranslateError::UnsupportedChannel)
    );
    assert_eq!(
        translate_subscribe(MessageKind::Other, &Vec::new()),
        Err(TranslateError::UnsupportedChannel)
    );
}

#[test]
fn symbols_beyond_the_ceiling_go_into_further_frames() {
    let mut symbols: Vec<String> = Vec::new();
    let mut i: usize = 0;
    while i < 250 {
        symbols.push(format!("S{}_USDT", i));
        i += 1;
    }
    let frames = translate_subscribe(MessageKind::Ticker, &symbols).unwrap();
    assert_eq!(frames.len(), 3);
    let mut seen: Vec<String> = Vec::new();
    let sizes: Vec<usize> = vec![100, 100, 50];
    for (frame, size) in frames.iter().zip(sizes.iter()) {
        let value: serde_json::Value = serde_json::from_str(frame).unwrap();
        let payload = value["payload"].as_array().unwrap();
        assert_eq!(payload.len(), *size);
        for symbol in payload {
            seen.push(symbol.as_str().unwrap().to_string());
        }
    }
    assert_eq!(seen, symbols);
    assert_eq!(translate_subscribe(MessageKind::Ticker, &Vec::new()), Ok(Vec::new()));
}

#[test]
fn ceiling_is_one_hundred_for_every_kind() {
    assert_eq!(SYMBOL_CEILING, 100);
    assert_eq!(subscription_ceiling(MessageKind::Ticker), 100);
    assert_eq!(subscription_ceiling(MessageKind::Trade), 100);
    assert_eq!(subscription_ceiling(MessageKind::L3Book), 100);
}

#[test]
fn heartbeat_frame() {
    assert_eq!(translate_ping(), Some("{\"channel\":\"spot.ping\"}".to_string()));
}

#[test]
fn command_frame_wraps_the_payload() {
    assert_eq!(
        command_frame(true, "spot.trades", "[]"),
        "{\"event\": \"subscribe\",\"channel\": \"spot.trades\", \"payload\": []}"
    );
    assert_eq!(
        command_frame(false, "x", "[\"a\"]"),
        "{\"event\": \"unsubscribe\",\"channel\": \"x\", \"payload\": [\"a\"]}"
    );
    assert_eq!(
        command_frame(true, "", ""),
        "{\"event\": \"subscribe\",\"channel\": \"\", \"payload\": }"
    );
}
