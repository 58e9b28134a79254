use venue_feed::backoff::BackoffPolicy;
use venue_feed::envelope::{envelope, Envelope};
use venue_feed::gate_spot::{channel_kind, Effect, GateSpotWSClient};
use venue_feed::handler::{GateFrame, VenueError};
use venue_feed::kinds::{ConnectionState, MarketType, MessageKind};
use venue_feed::replay::{collect_symbols, replay_frames};
use venue_feed::session::{Event, Topic};
use venue_feed::translator::TranslateError;
use venue_feed::transport::UplinkQuota;

fn update(channel: &str) -> GateFrame {
    GateFrame {
        channel: Some(channel.to_string()),
        event: Some("update".to_string()),
        id: None,
        error: None,
    }
}

fn ticker_frame() -> String {
    "{\"event\": \"subscribe\",\"channel\": \"spot.tickers\", \"payload\": [\"BTC_USDT\"]}".to_string()
}

#[test]
fn adapter_connects_to_the_venue_or_to_the_address_given() {
    let mut client = GateSpotWSClient::new(None);
    assert_eq!(client.url(), "wss://api.gateio.ws/ws/v4/");
    assert_eq!(client.state(), ConnectionState::Disconnected);
    assert_eq!(client.run(), Effect::Connect("wss://api.gateio.ws/ws/v4/".to_string()));
    let mut other = GateSpotWSClient::new(Some("ws://localhost:9000/"));
    assert_eq!(other.url(), "ws://localhost:9000/");
    assert_eq!(other.run(), Effect::Connect("ws://localhost:9000/".to_string()));
}

#[test]
fn uplink_limit_is_ten_frames_a_second() {
    assert_eq!(
        GateSpotWSClient::uplink_limit(),
        UplinkQuota { max_burst: 10, cell_nanos: 100_000_000 }
    );
}

#[test]
fn ticker_subscription_is_sent_when_the_connection_opens() {
    let mut client = GateSpotWSClient::new(None);
    assert_eq!(client.subscribe_ticker(&vec!["BTC_USDT".to_string()]), Effect::Idle);
    assert!(matches!(client.run(), Effect::Connect(_)));
    let effect = client.handle(Event::Connected);
    assert_eq!(effect, Effect::Send(vec![ticker_frame()]));
    if let Effect::Send(frames) = effect {
        assert_eq!(frames.len(), 1);
        assert!(frames[0].contains("\"spot.tickers\""));
        assert!(frames[0].contains("[\"BTC_USDT\"]"));
    }
    let mut envelopes: Vec<Envelope> = Vec::new();
    for text in ["t1", "t2", "t3"] {
        let effect = client.on_frame(text.to_string(), &update("spot.tickers"));
        assert_eq!(effect, Effect::Forward(text.to_string()));
        let made = envelope(
            "gate",
            MarketType::Spot,
            MessageKind::Ticker,
            "BTC_USDT",
            Some(1650000000000),
            1650000000500,
        );
        envelopes.push(made.unwrap());
    }
    assert_eq!(envelopes.len(), 3);
    for made in envelopes.iter() {
        assert_eq!(made.pair, "BTC/USDT");
        assert_eq!(made.exchange, "gate");
        assert_eq!(made.symbol, "BTC_USDT");
        assert_eq!(made.msg_type, MessageKind::Ticker);
        assert_eq!(made.market_type, MarketType::Spot);
    }
}

#[test]
fn open_adapter_sends_subscriptions_at_once() {
    let mut client = GateSpotWSClient::new(None);
    client.run();
    assert_eq!(client.handle(Event::Connected), Effect::Send(Vec::new()));
    assert_eq!(client.subscribe_ticker(&vec!["BTC_USDT".to_string()]), Effect::Send(vec![ticker_frame()]));
    assert_eq!(
        client.subscribe_trade(&vec!["BTC_USDT".to_string(), "ETH_USDT".to_string()]),
        Effect::Send(vec![
            "{\"event\": \"subscribe\",\"channel\": \"spot.trades\", \"payload\": [\"BTC_USDT\",\"ETH_USDT\"]}"
                .to_string()
        ])
    );
    assert!(matches!(client.subscribe_orderbook(&vec!["A_B".to_string()]), Effect::Send(f) if f[0].contains("\"spot.order_book_update\"")));
    assert!(matches!(client.subscribe_orderbook_topk(&vec!["A_B".to_string()]), Effect::Send(f) if f[0].contains("\"spot.order_book\"")));
    assert!(matches!(client.subscribe_bbo(&vec!["A_B".to_string()]), Effect::Send(f) if f[0].contains("\"spot.book_ticker\"")));
    assert!(matches!(client.subscribe_candlestick(&vec!["A_B".to_string()]), Effect::Send(f) if f[0].contains("\"spot.candlesticks\"")));
    assert_eq!(
        client.unsubscribe_kind(MessageKind::Ticker, &vec!["BTC_USDT".to_string()]),
        Effect::Send(vec![
            "{\"event\": \"unsubscribe\",\"channel\": \"spot.tickers\", \"payload\": [\"BTC_USDT\"]}"
                .to_string()
        ])
    );
}

#[test]
fn level_three_book_is_refused() {
    let mut client = GateSpotWSClient::new(None);
    assert_eq!(
        client.subscribe_l3_orderbook(&vec!["BTC_USDT".to_string()]),
        Effect::Fault(TranslateError::UnsupportedChannel)
    );
    assert_eq!(
        client.subscribe_kind(MessageKind::FundingRate, &vec!["BTC_USDT".to_string()]),
        Effect::Fault(TranslateError::UnsupportedChannel)
    );
    assert_eq!(
        client.handle(Event::Unsubscribe { kind: MessageKind::Other, symbols: Vec::new() }),
        Effect::Fault(TranslateError::UnsupportedChannel)
    );
    client.run();
    assert_eq!(client.handle(Event::Connected), Effect::Send(Vec::new()));
}

#[test]
fn subscription_by_the_channel_name() {
    let mut client = GateSpotWSClient::new(None);
    client.run();
    client.handle(Event::Connected);
    assert_eq!(
        client.subscribe("spot.tickers", &vec!["BTC_USDT".to_string()]),
        Effect::Send(vec![ticker_frame()])
    );
    assert_eq!(
        client.subscribe("spot.funding", &vec!["BTC_USDT".to_string()]),
        Effect::Fault(TranslateError::UnsupportedChannel)
    );
    assert_eq!(
        client.unsubscribe("tickers", &vec!["BTC_USDT".to_string()]),
        Effect::Fault(TranslateError::UnsupportedChannel)
    );
    assert!(matches!(
        client.unsubscribe("spot.tickers", &vec!["BTC_USDT".to_string()]),
        Effect::Send(_)
    ));
    assert_eq!(channel_kind("spot.trades"), Some(MessageKind::Trade));
    assert_eq!(channel_kind("spot.order_book_update"), Some(MessageKind::L2Book));
    assert_eq!(channel_kind("spot.order_book"), Some(MessageKind::L2BookTopK));
    assert_eq!(channel_kind("spot.book_ticker"), Some(MessageKind::BBO));
    assert_eq!(channel_kind("spot.tickers"), Some(MessageKind::Ticker));
    assert_eq!(channel_kind("spot.candlesticks"), Some(MessageKind::Candlestick));
    assert_eq!(channel_kind("spot.pong"), None);
}

#[test]
fn adapter_reconnects_within_two_seconds_and_resubscribes() {
    let mut client = GateSpotWSClient::new(None);
    client.subscribe_ticker(&vec!["BTC_USDT".to_string()]);
    client.subscribe_trade(&vec!["ETH_USDT".to_string()]);
    client.run();
    let first = client.handle(Event::Connected);
    let mut downstream: Vec<String> = Vec::new();
    for text in ["one", "two", "three"] {
        if let Effect::Forward(text) = client.on_frame(text.to_string(), &update("spot.tickers")) {
            downstream.push(text);
        }
    }
    let attempt: u32 = match client.handle(Event::TransportError) {
        Effect::Backoff { attempt } => attempt,
        other => panic!("unexpected {:?}", other),
    };
    assert!(BackoffPolicy::standard().delay_ms(attempt, 987654321) < 2000);
    assert!(matches!(client.handle(Event::BackoffElapsed), Effect::Connect(_)));
    assert_eq!(client.reconnects(), 1);
    let again = client.handle(Event::Connected);
    assert_eq!(again, first);
    assert_eq!(
        again,
        Effect::Send(vec![
            "{\"event\": \"subscribe\",\"channel\": \"spot.trades\", \"payload\": [\"ETH_USDT\"]}"
                .to_string(),
            ticker_frame(),
        ])
    );
    for text in ["four", "five"] {
        if let Effect::Forward(text) = client.on_frame(text.to_string(), &update("spot.tickers")) {
            downstream.push(text);
        }
    }
    assert_eq!(downstream, vec!["one", "two", "three", "four", "five"]);
}

#[test]
fn server_fault_reconnects_and_other_errors_are_reported() {
    let mut client = GateSpotWSClient::new(None);
    client.run();
    client.handle(Event::Connected);
    let mut bad = update("spot.tickers");
    bad.error = Some(VenueError { code: 2, message: "unknown currency pair".to_string() });
    assert_eq!(
        client.on_frame("e".to_string(), &bad),
        Effect::Report { code: 2, reason: "unknown currency pair".to_string() }
    );
    assert_eq!(client.state(), ConnectionState::Open);
    let mut fatal = update("spot.tickers");
    fatal.error = Some(VenueError { code: 3, message: "token expired".to_string() });
    assert_eq!(client.on_frame("f".to_string(), &fatal), Effect::Backoff { attempt: 0 });
    assert_eq!(client.state(), ConnectionState::Failed);
    assert!(matches!(client.handle(Event::BackoffElapsed), Effect::Connect(_)));
    assert_eq!(client.reconnects(), 1);
}

#[test]
fn heartbeat_and_pong() {
    let mut client = GateSpotWSClient::new(None);
    assert_eq!(client.handle(Event::HeartbeatDue), Effect::Idle);
    client.run();
    client.handle(Event::Connected);
    assert_eq!(
        client.handle(Event::HeartbeatDue),
        Effect::Ping("{\"channel\":\"spot.ping\"}".to_string())
    );
    let pong = GateFrame {
        channel: Some("spot.pong".to_string()),
        event: Some("".to_string()),
        id: None,
        error: None,
    };
    assert_eq!(client.on_frame("p".to_string(), &pong), Effect::KeepAlive);
}

#[test]
fn closing_the_adapter_twice_is_closing_it_once() {
    let mut client = GateSpotWSClient::new(None);
    client.subscribe_ticker(&vec!["BTC_USDT".to_string()]);
    client.run();
    client.handle(Event::Connected);
    assert_eq!(client.close(), Effect::SendClose);
    assert_eq!(client.state(), ConnectionState::Closing);
    assert_eq!(client.close(), Effect::Idle);
    assert_eq!(client.close(), Effect::Idle);
    assert_eq!(client.state(), ConnectionState::Closing);
    assert_eq!(client.subscribe_ticker(&vec!["ETH_USDT".to_string()]), Effect::Idle);
    assert_eq!(client.on_frame("late".to_string(), &update("spot.tickers")), Effect::Idle);
    assert_eq!(client.handle(Event::TransportClosed), Effect::Exit);
    assert_eq!(client.close(), Effect::Idle);
    assert_eq!(client.run(), Effect::Idle);
    assert_eq!(client.state(), ConnectionState::Disconnected);
}

#[test]
fn replay_goes_kind_by_kind() {
    let topics = vec![
        Topic { kind: MessageKind::Ticker, symbol: "BTC_USDT".to_string() },
        Topic { kind: MessageKind::Trade, symbol: "ETH_USDT".to_string() },
        Topic { kind: MessageKind::Ticker, symbol: "SOL_USDT".to_string() },
    ];
    assert_eq!(
        collect_symbols(&topics, MessageKind::Ticker),
        vec!["BTC_USDT".to_string(), "SOL_USDT".to_string()]
    );
    assert_eq!(collect_symbols(&topics, MessageKind::BBO), Vec::<String>::new());
    assert_eq!(
        replay_frames(&topics),
        Ok(vec![
            "{\"event\": \"subscribe\",\"channel\": \"spot.trades\", \"payload\": [\"ETH_USDT\"]}"
                .to_string(),
            "{\"event\": \"subscribe\",\"channel\": \"spot.tickers\", \"payload\": [\"BTC_USDT\",\"SOL_USDT\"]}"
                .to_string(),
        ])
    );
    assert_eq!(replay_frames(&Vec::new()), Ok(Vec::new()));
    let unsupported = vec![Topic { kind: MessageKind::L3Book, symbol: "BTC_USDT".to_string() }];
    assert_eq!(replay_frames(&unsupported), Err(TranslateError::UnsupportedChannel));
}

#[test]
fn replay_of_many_topics_respects_the_ceiling() {
    let mut topics: Vec<Topic> = Vec::new();
    let mut i: usize = 0;
    while i < 230 {
        topics.push(Topic { kind: MessageKind::Trade, symbol: format!("R{}_USDT", i) });
        i += 1;
    }
    let frames = replay_frames(&topics).unwrap();
    assert_eq!(frames.len(), 3);
    let mut seen: Vec<String> = Vec::new();
    for frame in frames.iter() {
        let value: serde_json::Value = serde_json::from_str(frame).unwrap();
        let payload = value["payload"].as_array().unwrap();
        assert!(payload.len() <= 100);
        for symbol in payload {
            seen.push(symbol.as_str().unwrap().to_string());
        }
    }
    let expected: Vec<String> = topics.iter().map(|t| t.symbol.clone()).collect();
    assert_eq!(seen, expected);
}
