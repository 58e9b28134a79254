use venue_feed::pair::{is_symbol, normalize_pair};

#[test]
fn underscore_becomes_slash() {
    assert_eq!(normalize_pair("BTC_USDT", "gate"), Some("BTC/USDT".to_string()));
    assert_eq!(normalize_pair("BTC_USDT", "mxc"), Some("BTC/USDT".to_string()));
    assert_eq!(normalize_pair("ETH_USD", "mexc"), Some("ETH/USD".to_string()));
    assert_eq!(normalize_pair("a_b", "mxc"), Some("a/b".to_string()));
}

#[test]
fn same_input_gives_the_same_pair() {
    let first = normalize_pair("BTC_USDT", "mxc");
    let mut i: usize = 0;
    while i < 10 {
        assert_eq!(normalize_pair("BTC_USDT", "mxc"), first);
        i += 1;
    }
}

#[test]
fn symbols_that_name_no_base_and_quote_have_no_pair() {
    assert_eq!(normalize_pair("BTCUSDT", "mxc"), None);
    assert_eq!(normalize_pair("", "mxc"), None);
    assert_eq!(normalize_pair("_", "mxc"), None);
    assert_eq!(normalize_pair("_USDT", "mxc"), None);
    assert_eq!(normalize_pair("BTC_", "gate"), None);
    assert_eq!(normalize_pair("BTC_USD_20210625", "gate"), None);
    assert_eq!(normalize_pair("BTC/USD_T", "mxc"), None);
    assert_eq!(normalize_pair("BTC__USDT", "mxc"), None);
}

#[test]
fn venues_that_are_not_known_have_no_pair() {
    assert_eq!(normalize_pair("BTC_USDT", "binance"), None);
    assert_eq!(normalize_pair("BTC_USDT", ""), None);
    assert_eq!(normalize_pair("BTC_USDT", "Gate"), None);
    assert_eq!(normalize_pair("BTC_USDT", "nowhere"), None);
}

#[test]
fn symbol_shape() {
    assert!(is_symbol("BTC_USDT"));
    assert!(is_symbol("a_b"));
    assert!(is_symbol("\u{00e9}_\u{4e2d}"));
    assert!(!is_symbol("ab"));
    assert!(!is_symbol("a_"));
    assert!(!is_symbol("_b"));
    assert!(!is_symbol("a_b_c"));
    assert!(!is_symbol("a/b"));
    assert!(!is_symbol("a_b/"));
}
