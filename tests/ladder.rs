use news_rust::classify::ListingKind;
use news_rust::ladder::{
    ladder_for, MarketCategory, Position, SchedulerAction, SchedulerEvent, TakeProfitPlan,
    TakeProfitScheduler, TakeProfitStep,
};

fn position(category: MarketCategory, held: u64, step: u64) -> Position {
    Position { pair: "DYMUSDT".to_string(), category, held, step }
}

/// Drives a scheduler to the end, reporting each sell as `succeeded`; returns
/// the waits and sells in the order they were asked for.
fn drive(mut s: TakeProfitScheduler, succeeded: bool) -> Vec<SchedulerAction> {
    let mut seen = Vec::new();
    loop {
        let action = s.next_action();
        seen.push(action);
        match action {
            SchedulerAction::Wait(_) => s.on_event(SchedulerEvent::WaitElapsed),
            SchedulerAction::Sell(_) => s.on_event(SchedulerEvent::SellAttempted { succeeded }),
            SchedulerAction::Finish => return seen,
        }
    }
}

fn sells(actions: &[SchedulerAction]) -> Vec<u64> {
    actions
        .iter()
        .filter_map(|a| match a {
            SchedulerAction::Sell(q) => Some(*q),
            _ => None,
        })
        .collect()
}

#[test]
fn hold_marker_first_sells_nothing() {
    let steps = vec![
        TakeProfitStep { delay_secs: 0, fraction_bps: 0 },
        TakeProfitStep { delay_secs: 60, fraction_bps: 5_000 },
    ];
    let plan = TakeProfitPlan::from_steps(&steps);
    assert!(matches!(plan, TakeProfitPlan::NoTakeProfit));
    let s = TakeProfitScheduler::new(&position(MarketCategory::Derivatives, 1_000_000_000, 1_000_000), &plan);
    assert_eq!(drive(s, true), vec![SchedulerAction::Finish]);
}

#[test]
fn two_step_ladder_sells_twice_in_order() {
    let plan = ladder_for(ListingKind::BinanceListing);
    let s = TakeProfitScheduler::new(&position(MarketCategory::Derivatives, 1_000_000_000, 1_000_000), &plan);
    let seen = drive(s, false);
    assert_eq!(
        seen,
        vec![
            SchedulerAction::Wait(120),
            SchedulerAction::Sell(750_000_000),
            SchedulerAction::Wait(480),
            SchedulerAction::Sell(250_000_000),
            SchedulerAction::Finish,
        ]
    );
}

#[test]
fn ladder_never_oversells() {
    let steps = vec![
        TakeProfitStep { delay_secs: 1, fraction_bps: 8_000 },
        TakeProfitStep { delay_secs: 2, fraction_bps: 8_000 },
    ];
    let plan = TakeProfitPlan::from_steps(&steps);
    let s = TakeProfitScheduler::new(&position(MarketCategory::Spot, 1_000, 0), &plan);
    let q = sells(&drive(s, true));
    assert_eq!(q, vec![800, 200]);
}

#[test]
fn derivative_steps_floor_to_lot_step() {
    let plan = ladder_for(ListingKind::BinanceFuturesListing);
    let s = TakeProfitScheduler::new(&position(MarketCategory::Derivatives, 370_000_000, 100_000_000), &plan);
    let q = sells(&drive(s, true));
    assert_eq!(q, vec![100_000_000, 100_000_000]);
}

#[test]
fn bithumb_ladder_has_one_step() {
    let plan = ladder_for(ListingKind::BithumbListing);
    let s = TakeProfitScheduler::new(&position(MarketCategory::Spot, 500, 0), &plan);
    assert_eq!(
        drive(s, true),
        vec![SchedulerAction::Wait(90), SchedulerAction::Sell(500), SchedulerAction::Finish]
    );
}

#[test]
fn no_listing_has_no_ladder() {
    assert!(matches!(ladder_for(ListingKind::NoListing), TakeProfitPlan::NoTakeProfit));
}

#[test]
fn executing_step_waits_for_its_report() {
    let plan = ladder_for(ListingKind::UpbitListing);
    let mut s = TakeProfitScheduler::new(&position(MarketCategory::Spot, 1_000, 0), &plan);
    s.on_event(SchedulerEvent::WaitElapsed);
    let before = s.next_action();
    s.on_event(SchedulerEvent::WaitElapsed);
    assert_eq!(s.next_action(), before);
    s.on_event(SchedulerEvent::SellAttempted { succeeded: false });
    assert_eq!(s.next_action(), SchedulerAction::Wait(780));
}
