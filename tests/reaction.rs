use news_rust::classify::ListingKind;
use news_rust::ladder::MarketCategory;
use news_rust::reaction::{entry_amount, plan_reaction, trade_pair, MarketData};

const UNIT: u64 = 100_000_000;

#[test]
fn no_listing_starts_nothing() {
    let tasks = plan_reaction(ListingKind::NoListing, &vec!["BTC".to_string()]);
    assert!(tasks.is_empty());
}

#[test]
fn two_tasks_per_symbol() {
    let tasks = plan_reaction(ListingKind::UpbitListing, &vec!["ALT".to_string(), "PYTH".to_string()]);
    let view: Vec<(String, MarketCategory)> = tasks.into_iter().map(|t| (t.pair, t.category)).collect();
    assert_eq!(
        view,
        vec![
            ("ALTUSDT".to_string(), MarketCategory::Derivatives),
            ("ALTUSDT".to_string(), MarketCategory::Spot),
            ("PYTHUSDT".to_string(), MarketCategory::Derivatives),
            ("PYTHUSDT".to_string(), MarketCategory::Spot),
        ]
    );
    assert_eq!(trade_pair("DYM"), "DYMUSDT");
}

#[test]
fn three_failed_fetches_three_skips() {
    let failed = MarketData { price: None, leverage: None, step: None };
    let tasks = plan_reaction(
        ListingKind::UpbitListing,
        &vec!["A".to_string(), "B".to_string(), "C".to_string()],
    );
    let decisions: Vec<Option<u64>> = tasks
        .iter()
        .filter(|t| t.category == MarketCategory::Derivatives)
        .map(|t| entry_amount(t.category, 100 * UNIT, 50 * UNIT, &failed))
        .collect();
    assert_eq!(decisions, vec![None, None, None]);
}

#[test]
fn entry_decisions() {
    let good = MarketData { price: Some(50_000 * UNIT), leverage: Some(20 * UNIT), step: Some(100_000) };
    assert_eq!(entry_amount(MarketCategory::Derivatives, 100 * UNIT, 0, &good), Some(4_000_000));
    let tiny = MarketData { price: Some(50_000 * UNIT), leverage: Some(UNIT), step: Some(UNIT) };
    assert_eq!(entry_amount(MarketCategory::Derivatives, UNIT, 0, &tiny), None);
    let no_step = MarketData { step: None, ..good };
    assert_eq!(entry_amount(MarketCategory::Derivatives, 100 * UNIT, 0, &no_step), None);
    assert_eq!(entry_amount(MarketCategory::Spot, 0, 50 * UNIT, &no_step), Some(50 * UNIT));
    assert_eq!(entry_amount(MarketCategory::Spot, 0, 0, &good), None);
}
