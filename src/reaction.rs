//! The fan-out of one announcement: one task per (symbol, market) pair, and
//! the entry decision each task takes from its own market data.
use vstd::prelude::*;
use crate::classify::ListingKind;
use crate::ladder::MarketCategory;
use crate::sizing::{order_size, size};
use crate::text::{push_str, string_of};

verus! {

/// A news feed message; its title is what gets classified.
#[derive(Debug, Clone)]
pub struct TreeResponse {
    pub source: String,
    pub title: String,
}

/// One independent attempt: enter `pair` in `category`, then unwind.
#[derive(Debug, Clone)]
pub struct ReactionTask {
    pub pair: String,
    pub category: MarketCategory,
}

/// What a task fetched; `None` is a value that could not be had.
#[derive(Debug, Clone, Copy, PartialEq, Eq, Structural)]
pub struct MarketData {
    pub price: Option<u64>,
    pub leverage: Option<u64>,
    pub step: Option<u64>,
}

/// Quote currency of every traded pair.
pub open spec fn pair_text(symbol: Seq<char>) -> Seq<char> {
    symbol + "USDT"@
}

pub open spec fn task_view(t: ReactionTask) -> (Seq<char>, MarketCategory) {
    (t.pair@, t.category)
}

/// Two tasks per symbol, derivatives first, in symbol order; none without a listing.
pub open spec fn planned_tasks(kind: ListingKind, symbols: Seq<Seq<char>>) -> Seq<(Seq<char>, MarketCategory)>
    decreases symbols.len(),
{
    if kind == ListingKind::NoListing || symbols.len() == 0 {
        Seq::empty()
    } else {
        let p = pair_text(symbols.last());
        planned_tasks(kind, symbols.drop_last()).push((p, MarketCategory::Derivatives)).push(
            (p, MarketCategory::Spot),
        )
    }
}

/// The trade pair of a symbol.
pub fn trade_pair(symbol: &str) -> (r: String)
    ensures
        r@ == pair_text(symbol@),
{
    let mut out: Vec<char> = Vec::new();
    push_str(&mut out, symbol);
    push_str(&mut out, "USDT");
    string_of(&out)
}

/// The tasks that an announcement of kind `kind` naming `symbols` starts.
pub fn plan_reaction(kind: ListingKind, symbols: &Vec<String>) -> (r: Vec<ReactionTask>)
    ensures
        r@.map_values(|t: ReactionTask| task_view(t)) == planned_tasks(kind, symbols.deep_view()),
{
    let ghost sv = symbols.deep_view();
    let mut tasks: Vec<ReactionTask> = Vec::new();
    if kind == ListingKind::NoListing {
        assert(tasks@.map_values(|t: ReactionTask| task_view(t)) =~= Seq::<(Seq<char>, MarketCategory)>::empty());
        return tasks;
    }
    let mut i: usize = 0;
    while i < symbols.len()
        invariant
            i <= symbols@.len(),
            sv == symbols.deep_view(),
            kind != ListingKind::NoListing,
            tasks@.map_values(|t: ReactionTask| task_view(t)) == planned_tasks(kind, sv.take(i as int)),
        decreases symbols@.len() - i,
    {
        let ghost before = tasks@;
        assert(sv.take(i + 1).drop_last() == sv.take(i as int));
        let pair = trade_pair(symbols[i].as_str());
        tasks.push(ReactionTask { pair: pair.clone(), category: MarketCategory::Derivatives });
        tasks.push(ReactionTask { pair, category: MarketCategory::Spot });
        assert(tasks@.map_values(|t: ReactionTask| task_view(t)) =~= before.map_values(
            |t: ReactionTask| task_view(t),
        ).push((pair_text(sv[i as int]), MarketCategory::Derivatives)).push(
            (pair_text(sv[i as int]), MarketCategory::Spot),
        ));
        i = i + 1;
    }
    assert(sv.take(symbols@.len() as int) == sv);
    tasks
}

/// The entry amount of a task: for derivatives the sized base quantity,
/// which needs price, leverage and step and must come out above zero; for
/// spot the quote amount itself, when above zero. `None` skips the task.
pub open spec fn entry_spec(
    category: MarketCategory,
    futures_notional: nat,
    spot_notional: nat,
    data: MarketData,
) -> Option<nat> {
    match category {
        MarketCategory::Derivatives => match (data.price, data.leverage, data.step) {
            (Some(p), Some(l), Some(s)) => {
                let q = order_size(futures_notional, l as nat, p as nat, s as nat);
                if 0 < q <= u64::MAX {
                    Some(q)
                } else {
                    None
                }
            },
            _ => None,
        },
        MarketCategory::Spot => if spot_notional > 0 {
            Some(spot_notional)
        } else {
            None
        },
    }
}

/// Decides a task's entry from its own market data.
pub fn entry_amount(category: MarketCategory, futures_notional: u64, spot_notional: u64, data: &MarketData) -> (r: Option<u64>)
    ensures
        r matches Some(v) ==> entry_spec(category, futures_notional as nat, spot_notional as nat, *data) == Some(v as nat),
        r is None ==> entry_spec(category, futures_notional as nat, spot_notional as nat, *data) is None,
{
    match category {
        MarketCategory::Derivatives => match (data.price, data.leverage, data.step) {
            (Some(p), Some(l), Some(s)) => {
                let q = size(futures_notional, l, p, s);
                if q > 0 && q <= u64::MAX as u128 {
                    Some(q as u64)
                } else {
                    None
                }
            },
            _ => None,
        },
        MarketCategory::Spot => if spot_notional > 0 {
            Some(spot_notional)
        } else {
            None
        },
    }
}

/// Entry decisions of a whole fan-out, task by task.
pub open spec fn reaction_entries(
    categories: Seq<MarketCategory>,
    data: Seq<MarketData>,
    futures_notional: nat,
    spot_notional: nat,
) -> Seq<Option<nat>> {
    Seq::new(categories.len(), |i: int| entry_spec(categories[i], futures_notional, spot_notional, data[i]))
}

/// Whether the lot-step table is rebuilt once the reaction to a message of
/// this kind has settled: only after a listing.
pub open spec fn refresh_after_spec(kind: ListingKind) -> bool {
    kind != ListingKind::NoListing
}

pub fn refresh_after(kind: ListingKind) -> (r: bool)
    ensures
        r == refresh_after_spec(kind),
{
    kind != ListingKind::NoListing
}

/// Without a listing the reaction starts no task and rebuilds no table, so
/// it makes no request.
pub proof fn lemma_no_listing_no_tasks(symbols: Seq<Seq<char>>)
    ensures
        planned_tasks(ListingKind::NoListing, symbols).len() == 0,
        !refresh_after_spec(ListingKind::NoListing),
{
}

/// Failures stay with their task: every task gets its own decision, a
/// derivatives task whose fetch failed is skipped, and what one task fetched
/// never changes another task's decision.
pub proof fn lemma_failures_isolated(
    categories: Seq<MarketCategory>,
    data: Seq<MarketData>,
    other: Seq<MarketData>,
    futures_notional: nat,
    spot_notional: nat,
    i: int,
)
    requires
        categories.len() == data.len() == other.len(),
        0 <= i < categories.len(),
        forall|j: int| 0 <= j < data.len() && j != i ==> data[j] == other[j],
    ensures
        reaction_entries(categories, data, futures_notional, spot_notional).len() == categories.len(),
        categories[i] == MarketCategory::Derivatives && (data[i].price is None || data[i].leverage is None
            || data[i].step is None) ==> reaction_entries(categories, data, futures_notional, spot_notional)[i] is None,
        forall|j: int|
            0 <= j < categories.len() && j != i ==> reaction_entries(categories, data, futures_notional, spot_notional)[j]
                == #[trigger] reaction_entries(categories, other, futures_notional, spot_notional)[j],
{
}

} // verus!
