use news_rust::executor::{BuyAction, BuyEvent, BuyState, OrderExecutor};

#[test]
fn derivatives_entry_holds_ordered_quantity() {
    let mut x = OrderExecutor::new(4_000_000, false);
    assert_eq!(x.next_action(), BuyAction::SubmitBuy(4_000_000));
    x.on_event(BuyEvent::BuySent);
    assert_eq!(x.next_action(), BuyAction::AwaitAnswer);
    x.on_event(BuyEvent::BuyAnswered { accepted: true });
    assert_eq!(x.next_action(), BuyAction::StartLadder(4_000_000));
}

#[test]
fn spot_entry_reads_back_its_fill() {
    let mut x = OrderExecutor::new(50_000_000_000, true);
    x.on_event(BuyEvent::BuySent);
    x.on_event(BuyEvent::BuyAnswered { accepted: true });
    assert_eq!(x.state, BuyState::AwaitingFill);
    assert_eq!(x.next_action(), BuyAction::QueryFill);
    x.on_event(BuyEvent::FillReported(Some(1_248_750_000)));
    assert_eq!(x.next_action(), BuyAction::StartLadder(1_248_750_000));
}

#[test]
fn failed_entry_is_terminal() {
    let mut x = OrderExecutor::new(1, false);
    x.on_event(BuyEvent::BuySent);
    x.on_event(BuyEvent::BuyAnswered { accepted: false });
    assert_eq!(x.next_action(), BuyAction::Stop);
    x.on_event(BuyEvent::BuyAnswered { accepted: true });
    x.on_event(BuyEvent::FillReported(Some(5)));
    assert_eq!(x.state, BuyState::BuyFailed);
    let mut y = OrderExecutor::new(1, true);
    y.on_event(BuyEvent::BuySent);
    y.on_event(BuyEvent::BuyAnswered { accepted: true });
    y.on_event(BuyEvent::FillReported(None));
    assert_eq!(y.next_action(), BuyAction::Stop);
}

#[test]
fn out_of_turn_reports_change_nothing() {
    let mut x = OrderExecutor::new(7, false);
    x.on_event(BuyEvent::BuyAnswered { accepted: true });
    assert_eq!(x.state, BuyState::Idle);
    x.on_event(BuyEvent::FillReported(Some(3)));
    assert_eq!(x.next_action(), BuyAction::SubmitBuy(7));
}
