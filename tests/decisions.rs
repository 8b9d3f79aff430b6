use news_rust::binance::{order_accepted as binance_accepted, spot_fill, SpotOrderAnswer};
use news_rust::bybit::{order_accepted as bybit_accepted, OrderAnswer};
use news_rust::classify::{has_substring, symbols_from_groups, ListingKind};
use news_rust::reaction::refresh_after;
use news_rust::signing::{current_timestamp, timestamp_from_millis};

#[test]
fn clock_readings() {
    assert_eq!(timestamp_from_millis(Some(1_706_641_454_555)), 1_706_641_454_555);
    assert_eq!(timestamp_from_millis(Some(-5)), 0);
    assert_eq!(timestamp_from_millis(None), 0);
    assert!(current_timestamp() > 1_600_000_000_000);
}

#[test]
fn order_acceptance() {
    assert!(bybit_accepted(&OrderAnswer { ret_code: 0 }));
    assert!(!bybit_accepted(&OrderAnswer { ret_code: 170131 }));
    assert!(binance_accepted(200));
    assert!(!binance_accepted(400));
    assert!(!binance_accepted(503));
}

#[test]
fn spot_fill_read_back() {
    assert_eq!(spot_fill(&SpotOrderAnswer { cummulative_quote_qty: "49.95".to_string() }), Some(4_995_000_000));
    assert_eq!(spot_fill(&SpotOrderAnswer { cummulative_quote_qty: "0.00000000".to_string() }), None);
}

#[test]
fn refresh_only_after_listing() {
    assert!(!refresh_after(ListingKind::NoListing));
    assert!(refresh_after(ListingKind::BinanceListing));
}

#[test]
fn substring_search() {
    assert!(has_substring("KRW 마켓 디지털 자산 추가 (CTC)", "마켓 디지털 자산 추가"));
    assert!(has_substring("abc", ""));
    assert!(has_substring("abc", "abc"));
    assert!(!has_substring("ab", "abc"));
    assert!(!has_substring("abcab", "bca "));
}

#[test]
fn empty_captures_are_dropped() {
    let groups = Some(vec![Some(String::new()), Some("ZETA".to_string())]);
    assert_eq!(symbols_from_groups(ListingKind::BinanceFuturesListing, groups), Ok((vec!["ZETA".to_string()], ListingKind::BinanceFuturesListing)));
}
