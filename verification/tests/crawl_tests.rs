use venue_feed::crawl::{crawl_ticker, plan_crawl, resolve_venue, CrawlError, Venue};
use venue_feed::kinds::{MarketType, MessageKind};

fn many(n: usize) -> Vec<String> {
    let mut symbols: Vec<String> = Vec::new();
    let mut i: usize = 0;
    while i < n {
        symbols.push(format!("C{}_USDT", i));
        i += 1;
    }
    symbols
}

#[test]
fn ticker_crawl_of_the_spot_market() {
    let symbols = vec!["BTC_USDT".to_string()];
    let plan = crawl_ticker(MarketType::Spot, Some(&symbols)).unwrap();
    assert_eq!(plan.venue, Venue::GateSpot);
    assert_eq!(plan.kind, MessageKind::Ticker);
    assert_eq!(plan.groups, vec![symbols.clone()]);
    assert_eq!(
        plan.frames,
        vec![
            "{\"event\": \"subscribe\",\"channel\": \"spot.tickers\", \"payload\": [\"BTC_USDT\"]}"
                .to_string()
        ]
    );
}

#[test]
fn ticker_crawl_needs_symbols() {
    assert_eq!(crawl_ticker(MarketType::Spot, None), Err(CrawlError::SymbolsRequired));
    assert_eq!(crawl_ticker(MarketType::Spot, Some(&Vec::new())), Err(CrawlError::SymbolsRequired));
    assert_eq!(crawl_ticker(MarketType::LinearPerpetual, None), Err(CrawlError::SymbolsRequired));
    assert_eq!(
        crawl_ticker(MarketType::Unknown, Some(&Vec::new())),
        Err(CrawlError::SymbolsRequired)
    );
}

#[test]
fn ticker_crawl_of_a_market_without_adapter() {
    let symbols = vec!["BTC_USDT".to_string()];
    assert_eq!(
        crawl_ticker(MarketType::LinearPerpetual, Some(&symbols)),
        Err(CrawlError::UnsupportedVenue)
    );
    assert_eq!(
        crawl_ticker(MarketType::InverseFuture, Some(&symbols)),
        Err(CrawlError::UnsupportedVenue)
    );
}

#[test]
fn five_hundred_symbols_make_five_frames_of_one_hundred() {
    let symbols = many(500);
    let plan = plan_crawl("gate", MarketType::Spot, MessageKind::Ticker, Some(&symbols)).unwrap();
    assert_eq!(plan.frames.len(), 5);
    assert_eq!(plan.groups.len(), 5);
    let mut seen: Vec<String> = Vec::new();
    for (frame, group) in plan.frames.iter().zip(plan.groups.iter()) {
        assert_eq!(group.len(), 100);
        let value: serde_json::Value = serde_json::from_str(frame).unwrap();
        assert_eq!(value["event"].as_str(), Some("subscribe"));
        assert_eq!(value["channel"].as_str(), Some("spot.tickers"));
        let payload: Vec<String> = value["payload"]
            .as_array()
            .unwrap()
            .iter()
            .map(|s| s.as_str().unwrap().to_string())
            .collect();
        assert_eq!(payload.len(), 100);
        assert_eq!(&payload, group);
        seen.extend(payload);
    }
    assert_eq!(seen, symbols);
}

#[test]
fn plan_errors_in_their_order() {
    let symbols = vec!["BTC_USDT".to_string()];
    assert_eq!(
        plan_crawl("binance", MarketType::Spot, MessageKind::L3Book, None),
        Err(CrawlError::UnsupportedVenue)
    );
    assert_eq!(
        plan_crawl("gate", MarketType::LinearFuture, MessageKind::Trade, Some(&symbols)),
        Err(CrawlError::UnsupportedVenue)
    );
    assert_eq!(
        plan_crawl("gate", MarketType::Spot, MessageKind::L3Book, None),
        Err(CrawlError::SymbolsRequired)
    );
    assert_eq!(
        plan_crawl("gate", MarketType::Spot, MessageKind::Trade, Some(&Vec::new())),
        Err(CrawlError::SymbolsRequired)
    );
    assert_eq!(
        plan_crawl("gate", MarketType::Spot, MessageKind::L3Book, Some(&symbols)),
        Err(CrawlError::UnsupportedChannel)
    );
    assert!(plan_crawl("gate", MarketType::Spot, MessageKind::Trade, Some(&symbols)).is_ok());
}

#[test]
fn venues_with_an_adapter() {
    assert_eq!(resolve_venue("gate", MarketType::Spot), Some(Venue::GateSpot));
    assert_eq!(resolve_venue("gate", MarketType::InversePerpetual), None);
    assert_eq!(resolve_venue("mxc", MarketType::Spot), None);
    assert_eq!(resolve_venue("", MarketType::Spot), None);
}
