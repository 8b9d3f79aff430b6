//! The entry order of one task as a state machine. The executor decides; its
//! driver submits the buy, queries the fill when asked, and reports back.
use vstd::prelude::*;

verus! {

/// Where an entry stands.
#[derive(Debug, Clone, Copy, PartialEq, Eq, Structural)]
pub enum BuyState {
    /// The buy is still to be submitted.
    Idle,
    /// The buy is out; its answer is awaited.
    BuySubmitted,
    /// The buy went through; the quantity delivered is still to be read back.
    AwaitingFill,
    /// The position is open with this quantity.
    BuyFilled(u64),
    /// The entry failed; nothing more happens for this pair and market.
    BuyFailed,
}

/// What the driver is to do next.
#[derive(Debug, Clone, Copy, PartialEq, Eq, Structural)]
pub enum BuyAction {
    /// Submit a market buy of this amount, then report `BuySent`.
    SubmitBuy(u64),
    /// Wait for the exchange's answer, then report `BuyAnswered`.
    AwaitAnswer,
    /// Read back the delivered quantity, then report `FillReported`.
    QueryFill,
    /// Hand the position of this quantity to its take-profit ladder.
    StartLadder(u64),
    /// Nothing is left to do.
    Stop,
}

/// What the driver reports.
#[derive(Debug, Clone, Copy, PartialEq, Eq, Structural)]
pub enum BuyEvent {
    BuySent,
    BuyAnswered { accepted: bool },
    /// The delivered quantity, or `None` when it could not be read.
    FillReported(Option<u64>),
}

/// One task's entry. Derivatives positions hold the ordered quantity; a spot
/// buy in quote currency holds what the exchange delivered, which is read
/// back when `query_fill` is set.
#[derive(Debug, Clone, Copy, PartialEq, Eq, Structural)]
pub struct OrderExecutor {
    pub amount: u64,
    pub query_fill: bool,
    pub state: BuyState,
}

impl OrderExecutor {
    /// The fill is awaited only where it is to be read back.
    pub open spec fn wf(&self) -> bool {
        self.state is AwaitingFill ==> self.query_fill
    }

    pub open spec fn action_spec(&self) -> BuyAction {
        match self.state {
            BuyState::Idle => BuyAction::SubmitBuy(self.amount),
            BuyState::BuySubmitted => BuyAction::AwaitAnswer,
            BuyState::AwaitingFill => BuyAction::QueryFill,
            BuyState::BuyFilled(held) => BuyAction::StartLadder(held),
            BuyState::BuyFailed => BuyAction::Stop,
        }
    }

    pub open spec fn state_after(&self, e: BuyEvent) -> BuyState {
        match (self.state, e) {
            (BuyState::Idle, BuyEvent::BuySent) => BuyState::BuySubmitted,
            (BuyState::BuySubmitted, BuyEvent::BuyAnswered { accepted }) => if !accepted {
                BuyState::BuyFailed
            } else if self.query_fill {
                BuyState::AwaitingFill
            } else {
                BuyState::BuyFilled(self.amount)
            },
            (BuyState::AwaitingFill, BuyEvent::FillReported(fill)) => match fill {
                Some(q) => if q > 0 {
                    BuyState::BuyFilled(q)
                } else {
                    BuyState::BuyFailed
                },
                None => BuyState::BuyFailed,
            },
            _ => self.state,
        }
    }

    /// An executor with its buy still to submit.
    pub fn new(amount: u64, query_fill: bool) -> (r: OrderExecutor)
        ensures
            r == (OrderExecutor { amount, query_fill, state: BuyState::Idle }),
            r.wf(),
    {
        OrderExecutor { amount, query_fill, state: BuyState::Idle }
    }

    /// The next thing to do.
    pub fn next_action(&self) -> (r: BuyAction)
        ensures
            r == self.action_spec(),
    {
        match self.state {
            BuyState::Idle => BuyAction::SubmitBuy(self.amount),
            BuyState::BuySubmitted => BuyAction::AwaitAnswer,
            BuyState::AwaitingFill => BuyAction::QueryFill,
            BuyState::BuyFilled(held) => BuyAction::StartLadder(held),
            BuyState::BuyFailed => BuyAction::Stop,
        }
    }

    /// Takes in what the driver reports; a report that does not fit the
    /// current state changes nothing.
    pub fn on_event(&mut self, e: BuyEvent)
        requires
            old(self).wf(),
        ensures
            final(self).wf(),
            final(self).state == old(self).state_after(e),
            final(self).amount == old(self).amount,
            final(self).query_fill == old(self).query_fill,
    {
        let next = match (self.state, e) {
            (BuyState::Idle, BuyEvent::BuySent) => BuyState::BuySubmitted,
            (BuyState::BuySubmitted, BuyEvent::BuyAnswered { accepted }) => if !accepted {
                BuyState::BuyFailed
            } else if self.query_fill {
                BuyState::AwaitingFill
            } else {
                BuyState::BuyFilled(self.amount)
            },
            (BuyState::AwaitingFill, BuyEvent::FillReported(fill)) => match fill {
                Some(q) => if q > 0 {
                    BuyState::BuyFilled(q)
                } else {
                    BuyState::BuyFailed
                },
                None => BuyState::BuyFailed,
            },
            _ => self.state,
        };
        self.state = next;
    }
}

/// A failed entry stays failed and never starts a ladder; a ladder starts
/// only from a filled buy, with the quantity the buy left in hand.
pub proof fn lemma_failed_is_terminal(x: OrderExecutor, e: BuyEvent)
    requires
        x.wf(),
    ensures
        x.state is BuyFailed ==> x.state_after(e) is BuyFailed,
        x.action_spec() is StartLadder <==> x.state is BuyFilled,
        x.state is BuyFilled ==> x.state_after(e) == x.state,
        x.state_after(e) is BuyFilled && !(x.state is BuyFilled) ==> {
            let q = x.state_after(e)->BuyFilled_0;
            (q == x.amount && !x.query_fill) || (x.query_fill && q > 0)
        },
{
}

} // verus!
