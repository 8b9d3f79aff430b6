//! Take-profit ladders and the per-position scheduler that walks one. The
//! scheduler decides; its driver waits and submits the sells it asks for and
//! reports back.
use vstd::prelude::*;
use crate::classify::ListingKind;
use crate::sizing::{
    BASIS,
    derivative_sell_size,
    spot_sell_size,
    derivative_sell_quantity,
    spot_sell_quantity,
};

verus! {

/// Market in which a position is held.
#[derive(Debug, Clone, Copy, PartialEq, Eq, Hash, Structural)]
pub enum MarketCategory {
    Derivatives,
    Spot,
}

/// One rung of a ladder: wait `delay_secs`, then sell `fraction_bps` basis
/// points of the quantity held at open.
#[derive(Debug, Clone, Copy, PartialEq, Eq, Structural)]
pub struct TakeProfitStep {
    pub delay_secs: u64,
    pub fraction_bps: u64,
}

/// Either no take-profit at all, or the ordered steps to walk.
#[derive(Debug, Clone)]
pub enum TakeProfitPlan {
    NoTakeProfit,
    Ladder(Vec<TakeProfitStep>),
}

/// A step with zero delay and zero fraction, which marks "hold only".
pub open spec fn is_hold_marker(s: TakeProfitStep) -> bool {
    s.delay_secs == 0 && s.fraction_bps == 0
}

/// Steps that sell something, in their order.
pub open spec fn selling_steps(steps: Seq<TakeProfitStep>) -> Seq<TakeProfitStep> {
    steps.filter(|s: TakeProfitStep| s.fraction_bps > 0)
}

/// The plan that a raw step list stands for.
pub open spec fn plan_of(steps: Seq<TakeProfitStep>) -> Option<Seq<TakeProfitStep>> {
    if steps.len() == 0 || is_hold_marker(steps[0]) {
        None
    } else {
        Some(selling_steps(steps))
    }
}

impl TakeProfitPlan {
    pub open spec fn steps_view(&self) -> Option<Seq<TakeProfitStep>> {
        match self {
            TakeProfitPlan::NoTakeProfit => None,
            TakeProfitPlan::Ladder(v) => Some(v@),
        }
    }

    /// Every step sells a share of at most the whole.
    pub open spec fn wf(&self) -> bool {
        match self {
            TakeProfitPlan::NoTakeProfit => true,
            TakeProfitPlan::Ladder(v) => forall|j: int|
                0 <= j < v@.len() ==> 0 < (#[trigger] v@[j]).fraction_bps <= BASIS,
        }
    }

    /// Reads a raw step list: a hold marker first (or no step) means no
    /// take-profit; otherwise the steps that sell something, in order.
    pub fn from_steps(steps: &Vec<TakeProfitStep>) -> (r: TakeProfitPlan)
        requires
            forall|j: int| 0 <= j < steps@.len() ==> (#[trigger] steps@[j]).fraction_bps <= BASIS,
        ensures
            r.steps_view() == plan_of(steps@),
            r.wf(),
    {
        if steps.len() == 0 || (steps[0].delay_secs == 0 && steps[0].fraction_bps == 0) {
            return TakeProfitPlan::NoTakeProfit;
        }
        let mut kept: Vec<TakeProfitStep> = Vec::new();
        let mut i: usize = 0;
        while i < steps.len()
            invariant
                i <= steps@.len(),
                kept@ == selling_steps(steps@.take(i as int)),
                forall|j: int| 0 <= j < kept@.len() ==> 0 < (#[trigger] kept@[j]).fraction_bps <= BASIS,
                forall|j: int| 0 <= j < steps@.len() ==> (#[trigger] steps@[j]).fraction_bps <= BASIS,
            decreases steps@.len() - i,
        {
            proof {
                let f = |s: TakeProfitStep| s.fraction_bps > 0;
                assert(steps@.take(i + 1) == steps@.take(i as int).push(steps@[i as int]));
                steps@.take(i as int).lemma_filter_push(steps@[i as int], f);
            }
            if steps[i].fraction_bps > 0 {
                kept.push(steps[i]);
            }
            i = i + 1;
        }
        assert(steps@.take(steps@.len() as int) == steps@);
        TakeProfitPlan::Ladder(kept)
    }
}

proof fn lemma_selling_pair(a: TakeProfitStep, b: TakeProfitStep)
    ensures
        selling_steps(seq![a, b]) == (if a.fraction_bps > 0 { seq![a] } else { Seq::empty() }) + (if b.fraction_bps
            > 0 {
            seq![b]
        } else {
            Seq::empty()
        }),
{
    let f = |t: TakeProfitStep| t.fraction_bps > 0;
    assert(seq![a, b] == seq![a].push(b));
    seq![a].lemma_filter_push(b, f);
    assert(seq![a] == Seq::<TakeProfitStep>::empty().push(a));
    Seq::<TakeProfitStep>::empty().lemma_filter_push(a, f);
    assert(Seq::<TakeProfitStep>::empty().filter(f) == Seq::<TakeProfitStep>::empty()) by {
        reveal(Seq::filter);
    }
    if a.fraction_bps > 0 {
        if b.fraction_bps > 0 {
            assert(seq![a].push(b) == seq![a] + seq![b]);
        } else {
            assert(seq![a] == seq![a] + Seq::<TakeProfitStep>::empty());
        }
    } else {
        if b.fraction_bps > 0 {
            assert(Seq::<TakeProfitStep>::empty().push(b) == Seq::<TakeProfitStep>::empty() + seq![b]);
        } else {
            assert(Seq::<TakeProfitStep>::empty() == Seq::<TakeProfitStep>::empty() + Seq::<TakeProfitStep>::empty());
        }
    }
}

/// The take-profit steps of each listing kind, as a plan.
pub open spec fn ladder_plan(kind: ListingKind) -> Option<Seq<TakeProfitStep>> {
    match kind {
        ListingKind::BinanceListing => Some(
            seq![
                TakeProfitStep { delay_secs: 120, fraction_bps: 7500 },
                TakeProfitStep { delay_secs: 480, fraction_bps: 2500 },
            ],
        ),
        ListingKind::UpbitListing => Some(
            seq![
                TakeProfitStep { delay_secs: 120, fraction_bps: 7500 },
                TakeProfitStep { delay_secs: 780, fraction_bps: 2500 },
            ],
        ),
        ListingKind::BinanceFuturesListing => Some(
            seq![
                TakeProfitStep { delay_secs: 7, fraction_bps: 5000 },
                TakeProfitStep { delay_secs: 120, fraction_bps: 5000 },
            ],
        ),
        ListingKind::BithumbListing => Some(seq![TakeProfitStep { delay_secs: 90, fraction_bps: 10000 }]),
        ListingKind::NoListing => None,
    }
}

/// The raw ladder of each listing kind.
pub open spec fn ladder_steps(kind: ListingKind) -> Seq<TakeProfitStep> {
    match kind {
        ListingKind::BinanceListing => seq![
            TakeProfitStep { delay_secs: 120, fraction_bps: 7500 },
            TakeProfitStep { delay_secs: 480, fraction_bps: 2500 },
        ],
        ListingKind::UpbitListing => seq![
            TakeProfitStep { delay_secs: 120, fraction_bps: 7500 },
            TakeProfitStep { delay_secs: 780, fraction_bps: 2500 },
        ],
        ListingKind::BinanceFuturesListing => seq![
            TakeProfitStep { delay_secs: 7, fraction_bps: 5000 },
            TakeProfitStep { delay_secs: 120, fraction_bps: 5000 },
        ],
        ListingKind::BithumbListing => seq![
            TakeProfitStep { delay_secs: 90, fraction_bps: 10000 },
            TakeProfitStep { delay_secs: 0, fraction_bps: 0 },
        ],
        ListingKind::NoListing => seq![
            TakeProfitStep { delay_secs: 0, fraction_bps: 0 },
            TakeProfitStep { delay_secs: 0, fraction_bps: 0 },
        ],
    }
}

/// The take-profit plan for a listing kind.
pub fn ladder_for(kind: ListingKind) -> (r: TakeProfitPlan)
    ensures
        r.steps_view() == plan_of(ladder_steps(kind)),
        r.steps_view() == ladder_plan(kind),
        r.wf(),
{
    let steps: Vec<TakeProfitStep> = match kind {
        ListingKind::BinanceListing => vec![
            TakeProfitStep { delay_secs: 120, fraction_bps: 7500 },
            TakeProfitStep { delay_secs: 480, fraction_bps: 2500 },
        ],
        ListingKind::UpbitListing => vec![
            TakeProfitStep { delay_secs: 120, fraction_bps: 7500 },
            TakeProfitStep { delay_secs: 780, fraction_bps: 2500 },
        ],
        ListingKind::BinanceFuturesListing => vec![
            TakeProfitStep { delay_secs: 7, fraction_bps: 5000 },
            TakeProfitStep { delay_secs: 120, fraction_bps: 5000 },
        ],
        ListingKind::BithumbListing => vec![
            TakeProfitStep { delay_secs: 90, fraction_bps: 10000 },
            TakeProfitStep { delay_secs: 0, fraction_bps: 0 },
        ],
        ListingKind::NoListing => vec![
            TakeProfitStep { delay_secs: 0, fraction_bps: 0 },
            TakeProfitStep { delay_secs: 0, fraction_bps: 0 },
        ],
    };
    assert(steps@ == ladder_steps(kind));
    proof {
        let raw = ladder_steps(kind);
        lemma_selling_pair(raw[0], raw[1]);
        assert(raw == seq![raw[0], raw[1]]);
        if kind == ListingKind::BithumbListing {
            assert(seq![raw[0]] + Seq::<TakeProfitStep>::empty() == seq![raw[0]]);
        }
    }
    TakeProfitPlan::from_steps(&steps)
}

/// An opened position that a ladder unwinds.
#[derive(Debug, Clone)]
pub struct Position {
    pub pair: String,
    pub category: MarketCategory,
    /// Quantity held at open, in units.
    pub held: u64,
    /// Lot step of the pair, in units.
    pub step: u64,
}

/// Where the scheduler stands: waiting before step `i`, selling step `i`, or finished.
#[derive(Debug, Clone, Copy, PartialEq, Eq, Structural)]
pub enum SchedulerState {
    Scheduled(usize),
    Executing(usize),
    Done,
}

/// What the driver is to do next.
#[derive(Debug, Clone, Copy, PartialEq, Eq, Structural)]
pub enum SchedulerAction {
    /// Sleep this many seconds, then report `WaitElapsed`.
    Wait(u64),
    /// Submit a market sell of this quantity, then report `SellAttempted`.
    Sell(u64),
    /// The ladder is over.
    Finish,
}

/// What the driver reports back.
#[derive(Debug, Clone, Copy, PartialEq, Eq, Structural)]
pub enum SchedulerEvent {
    WaitElapsed,
    /// The sell was attempted; whether it succeeded does not change the course.
    SellAttempted { succeeded: bool },
}

/// Share of `held` that a step of `fraction_bps` sells in `category`.
pub open spec fn step_share(category: MarketCategory, held: nat, step: nat, fraction_bps: nat) -> nat {
    match category {
        MarketCategory::Derivatives => derivative_sell_size(held, step, fraction_bps),
        MarketCategory::Spot => spot_sell_size(held, fraction_bps),
    }
}

/// `held - committed`, or zero.
pub open spec fn room(held: nat, committed: nat) -> nat {
    if committed <= held { (held - committed) as nat } else { 0 }
}

pub open spec fn capped(q: nat, limit: nat) -> nat {
    if q <= limit { q } else { limit }
}

/// The sells that steps `i..` submit, in order, when `committed` is already
/// sold: each step's share of the quantity held at open, cut to what is left.
pub open spec fn sells_from(
    category: MarketCategory,
    held: nat,
    step: nat,
    steps: Seq<TakeProfitStep>,
    i: int,
    committed: nat,
) -> Seq<nat>
    decreases steps.len() - i,
{
    if i < 0 || i >= steps.len() {
        Seq::empty()
    } else {
        let q = capped(step_share(category, held, step, steps[i].fraction_bps as nat), room(held, committed));
        seq![q] + sells_from(category, held, step, steps, i + 1, committed + q)
    }
}

pub open spec fn total(s: Seq<nat>) -> nat
    decreases s.len(),
{
    if s.len() == 0 {
        0
    } else {
        s[0] + total(s.drop_first())
    }
}

/// Where a scheduler started on a plan stands.
pub open spec fn start_state(plan: Option<Seq<TakeProfitStep>>) -> SchedulerState {
    match plan {
        Some(s) => if s.len() > 0 {
            SchedulerState::Scheduled(0)
        } else {
            SchedulerState::Done
        },
        None => SchedulerState::Done,
    }
}

/// Walks one position through its ladder, one step after another.
#[derive(Debug, Clone)]
pub struct TakeProfitScheduler {
    pub category: MarketCategory,
    pub held: u64,
    pub step: u64,
    pub steps: Vec<TakeProfitStep>,
    pub state: SchedulerState,
    /// Quantity already handed out to sells.
    pub committed: u64,
}

impl TakeProfitScheduler {
    pub open spec fn wf(&self) -> bool {
        &&& self.committed <= self.held
        &&& forall|j: int|
            0 <= j < self.steps@.len() ==> (#[trigger] self.steps@[j]).fraction_bps <= BASIS
        &&& match self.state {
            SchedulerState::Scheduled(i) => i < self.steps@.len(),
            SchedulerState::Executing(i) => i < self.steps@.len(),
            SchedulerState::Done => true,
        }
    }

    /// The sells still to come, in the order they will be asked for.
    pub open spec fn pending_sells(&self) -> Seq<nat> {
        match self.state {
            SchedulerState::Scheduled(i) => sells_from(
                self.category,
                self.held as nat,
                self.step as nat,
                self.steps@,
                i as int,
                self.committed as nat,
            ),
            SchedulerState::Executing(i) => sells_from(
                self.category,
                self.held as nat,
                self.step as nat,
                self.steps@,
                i as int,
                self.committed as nat,
            ),
            SchedulerState::Done => Seq::empty(),
        }
    }

    pub open spec fn action_spec(&self) -> SchedulerAction {
        match self.state {
            SchedulerState::Scheduled(i) => SchedulerAction::Wait(self.steps@[i as int].delay_secs),
            SchedulerState::Executing(i) => SchedulerAction::Sell(self.pending_sells()[0] as u64),
            SchedulerState::Done => SchedulerAction::Finish,
        }
    }

    pub open spec fn state_after(&self, e: SchedulerEvent) -> SchedulerState {
        match (self.state, e) {
            (SchedulerState::Scheduled(i), SchedulerEvent::WaitElapsed) => SchedulerState::Executing(i),
            (SchedulerState::Executing(i), SchedulerEvent::SellAttempted { .. }) => if i + 1
                < self.steps@.len() {
                SchedulerState::Scheduled((i + 1) as usize)
            } else {
                SchedulerState::Done
            },
            _ => self.state,
        }
    }

    pub open spec fn committed_after(&self, e: SchedulerEvent) -> nat {
        match (self.state, e) {
            (SchedulerState::Executing(i), SchedulerEvent::SellAttempted { .. }) => (self.committed
                + self.pending_sells()[0]) as nat,
            _ => self.committed as nat,
        }
    }

    /// Starts a scheduler for `position` under `plan`: finished at once for no
    /// take-profit or an empty ladder, else waiting before the first step.
    pub fn new(position: &Position, plan: &TakeProfitPlan) -> (r: TakeProfitScheduler)
        requires
            plan.wf(),
        ensures
            r.wf(),
            r.category == position.category,
            r.held == position.held,
            r.step == position.step,
            r.committed == 0,
            plan.steps_view() matches Some(s) ==> r.steps@ == s,
            r.state == start_state(plan.steps_view()),
    {
        let (steps, state) = match plan {
            TakeProfitPlan::NoTakeProfit => (Vec::new(), SchedulerState::Done),
            TakeProfitPlan::Ladder(v) => {
                let state = if v.len() > 0 {
                    SchedulerState::Scheduled(0)
                } else {
                    SchedulerState::Done
                };
                (v.clone(), state)
            },
        };
        TakeProfitScheduler {
            category: position.category,
            held: position.held,
            step: position.step,
            steps,
            state,
            committed: 0,
        }
    }

    fn current_sell(&self, i: usize) -> (q: u64)
        requires
            self.wf(),
            i < self.steps@.len(),
        ensures
            q == capped(
                step_share(self.category, self.held as nat, self.step as nat, self.steps@[i as int].fraction_bps as nat),
                room(self.held as nat, self.committed as nat),
            ),
            q <= self.held - self.committed,
    {
        let f = self.steps[i].fraction_bps;
        let share = match self.category {
            MarketCategory::Derivatives => derivative_sell_quantity(self.held, self.step, f),
            MarketCategory::Spot => spot_sell_quantity(self.held, f),
        };
        let left = self.held - self.committed;
        if share <= left {
            share
        } else {
            left
        }
    }

    /// The next thing to do.
    pub fn next_action(&self) -> (r: SchedulerAction)
        requires
            self.wf(),
        ensures
            r == self.action_spec(),
    {
        match self.state {
            SchedulerState::Scheduled(i) => SchedulerAction::Wait(self.steps[i].delay_secs),
            SchedulerState::Executing(i) => SchedulerAction::Sell(self.current_sell(i)),
            SchedulerState::Done => SchedulerAction::Finish,
        }
    }

    /// Takes in what the driver reports.
    pub fn on_event(&mut self, e: SchedulerEvent)
        requires
            old(self).wf(),
        ensures
            final(self).wf(),
            final(self).state == old(self).state_after(e),
            final(self).committed == old(self).committed_after(e),
            final(self).category == old(self).category,
            final(self).held == old(self).held,
            final(self).step == old(self).step,
            final(self).steps == old(self).steps,
    {
        match (self.state, e) {
            (SchedulerState::Scheduled(i), SchedulerEvent::WaitElapsed) => {
                self.state = SchedulerState::Executing(i);
            },
            (SchedulerState::Executing(i), SchedulerEvent::SellAttempted { .. }) => {
                let q = self.current_sell(i);
                self.committed = self.committed + q;
                if i < self.steps.len() - 1 {
                    self.state = SchedulerState::Scheduled(i + 1);
                } else {
                    self.state = SchedulerState::Done;
                }
            },
            _ => {},
        }
    }
}

proof fn lemma_sells_within(
    category: MarketCategory,
    held: nat,
    step: nat,
    steps: Seq<TakeProfitStep>,
    i: int,
    committed: nat,
)
    requires
        committed <= held,
        0 <= i <= steps.len(),
    ensures
        committed + total(sells_from(category, held, step, steps, i, committed)) <= held,
        sells_from(category, held, step, steps, i, committed).len() == steps.len() - i,
    decreases steps.len() - i,
{
    if i < steps.len() {
        let q = capped(step_share(category, held, step, steps[i].fraction_bps as nat), room(held, committed));
        let rest = sells_from(category, held, step, steps, i + 1, committed + q);
        lemma_sells_within(category, held, step, steps, i + 1, committed + q);
        let all = seq![q] + rest;
        assert(all.drop_first() == rest);
        assert(all[0] == q);
    }
}

/// A ladder whose first step is the hold marker submits no sell: it reads as
/// no take-profit, and a scheduler started on it is finished with nothing pending.
pub proof fn lemma_hold_marker_sells_nothing(steps: Seq<TakeProfitStep>, s: TakeProfitScheduler)
    requires
        steps.len() > 0,
        is_hold_marker(steps[0]),
        s.state == start_state(plan_of(steps)),
    ensures
        plan_of(steps) is None,
        s.pending_sells().len() == 0,
        s.action_spec() == SchedulerAction::Finish,
{
}

/// A ladder of two selling steps asks for exactly two sells, and together
/// they never exceed the quantity held.
pub proof fn lemma_two_step_ladder(a: TakeProfitStep, b: TakeProfitStep, s: TakeProfitScheduler)
    requires
        a.fraction_bps > 0,
        b.fraction_bps > 0,
        plan_of(seq![a, b]) matches Some(p) && s.steps@ == p,
        s.state == start_state(plan_of(seq![a, b])),
        s.committed == 0,
    ensures
        plan_of(seq![a, b]) == Some(seq![a, b]),
        s.state == SchedulerState::Scheduled(0),
        s.pending_sells().len() == 2,
        total(s.pending_sells()) <= s.held,
{
    lemma_selling_pair(a, b);
    assert(seq![a] + seq![b] == seq![a, b]);
    lemma_sells_within(s.category, s.held as nat, s.step as nat, s.steps@, 0, 0);
}

/// Sells go out one at a time and in ladder order: a sell is asked for only
/// while a step is executing; an executing step moves on only once its sell
/// attempt is reported, whatever its result, and then the remaining sells are
/// the ones that were pending after it.
pub proof fn lemma_one_sell_at_a_time(s: TakeProfitScheduler, e: SchedulerEvent)
    requires
        s.wf(),
    ensures
        s.action_spec() is Sell <==> s.state is Executing,
        s.state is Executing && e is WaitElapsed ==> s.state_after(e) == s.state
            && s.committed_after(e) == s.committed,
        s.state is Executing && e is SellAttempted ==> {
            let i = s.state->Executing_0;
            &&& s.state_after(e) == (if i + 1 < s.steps@.len() {
                SchedulerState::Scheduled((i + 1) as usize)
            } else {
                SchedulerState::Done
            })
            &&& sells_from(
                s.category,
                s.held as nat,
                s.step as nat,
                s.steps@,
                i + 1,
                s.committed_after(e),
            ) == s.pending_sells().drop_first()
        },
        s.state is Scheduled && e is WaitElapsed ==> s.state_after(e) == SchedulerState::Executing(
            s.state->Scheduled_0,
        ),
{
    if let SchedulerState::Executing(i) = s.state {
        let q = capped(
            step_share(s.category, s.held as nat, s.step as nat, s.steps@[i as int].fraction_bps as nat),
            room(s.held as nat, s.committed as nat),
        );
        let rest = sells_from(s.category, s.held as nat, s.step as nat, s.steps@, i + 1, (s.committed + q) as nat);
        assert((seq![q] + rest).drop_first() == rest);
    }
}

} // verus!
