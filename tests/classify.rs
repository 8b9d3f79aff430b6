use news_rust::classify::{process_title, symbols_from_groups, title_case, ClassifyError, ListingKind};

#[test]
fn test_process_title_variants() {
    let title_binance_listing = "Binance Will List Dymension (DYM) with Seed Tag Applied";
    let (symbol, tp_case) =
        process_title(title_binance_listing).expect("Error processing binance listing");
    assert_eq!(vec!["DYM"], symbol);
    assert_eq!(ListingKind::BinanceListing, tp_case);

    let title_upbit_listing = "KRW 마켓 디지털 자산 추가 (CTC)";
    let (symbol, tp_case) =
        process_title(title_upbit_listing).expect("Error processing upbit listing");
    assert_eq!(vec!["CTC"], symbol);
    assert_eq!(ListingKind::UpbitListing, tp_case);

    let title_binance_futures_listing =
        "Binance Futures Will Launch USDⓈ-M ZETA Perpetual Contract With Up to 50x Leverage";
    let (symbol, tp_case) = process_title(title_binance_futures_listing)
        .expect("Error processing binance futures listing");
    assert_eq!(vec!["ZETA"], symbol);
    assert_eq!(ListingKind::BinanceFuturesListing, tp_case);

    let title_binance_futures_1000sats =
        "Binance Futures Will Launch USDⓈ-M 1000SATS Perpetual Contract With Up to 50x Leverage";
    let (symbol, tp_case) = process_title(title_binance_futures_1000sats)
        .expect("Error processing binance futures listing");
    assert_eq!(vec!["SATS"], symbol);
    assert_eq!(ListingKind::BinanceFuturesListing, tp_case);

    // A title without a listing carries no symbol at all.
    let title_empty = "";
    let (symbol, tp_case) = process_title(title_empty).expect("Error processing empty title");
    assert!(symbol.is_empty());
    assert_eq!(ListingKind::NoListing, tp_case);

    let title_random_text = "This is a random text";
    let (symbol, tp_case) = process_title(title_random_text).expect("Error processing random text");
    assert!(symbol.is_empty());
    assert_eq!(ListingKind::NoListing, tp_case);

    let title_bithumb_text = "맨틀(MNT) 원화 마켓 추가";
    let (symbol, tp_case) =
        process_title(title_bithumb_text).expect("Error processing bithumb text");
    assert_eq!(vec!["MNT"], symbol);
    assert_eq!(ListingKind::BithumbListing, tp_case);

    let multiple_upbit_listing = "KRW, BTC 마켓 디지털 자산 추가 (ALT, PYTH)";
    let (symbol, tp_case) =
        process_title(multiple_upbit_listing).expect("Error processing multiple upbit listing");
    assert_eq!(vec!["ALT", "PYTH"], symbol);
    assert_eq!(ListingKind::UpbitListing, tp_case);
}

#[test]
fn first_trigger_wins() {
    let title = "Binance Will List Foo (FOO) 마켓 디지털 자산 추가";
    let (pattern, kind) = title_case(title);
    assert_eq!(kind, ListingKind::BinanceListing);
    assert_eq!(pattern, r"\([\d]*([^()]+)\)");
}

#[test]
fn trigger_without_capture_is_an_error() {
    assert_eq!(process_title("Binance Will List Something Soon"), Err(ClassifyError::NoSymbol));
}

#[test]
fn groups_keep_captured_entries_in_order() {
    let groups = Some(vec![Some("ALT".to_string()), None, Some("PYTH".to_string())]);
    let (symbols, kind) = symbols_from_groups(ListingKind::UpbitListing, groups).unwrap();
    assert_eq!(symbols, vec!["ALT", "PYTH"]);
    assert_eq!(kind, ListingKind::UpbitListing);
}

#[test]
fn groups_errors() {
    assert_eq!(symbols_from_groups(ListingKind::BinanceListing, None), Err(ClassifyError::BadPattern));
    assert_eq!(
        symbols_from_groups(ListingKind::BinanceListing, Some(vec![None])),
        Err(ClassifyError::NoSymbol)
    );
    assert_eq!(
        symbols_from_groups(ListingKind::NoListing, None),
        Ok((Vec::new(), ListingKind::NoListing))
    );
}
