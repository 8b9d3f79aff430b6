//! Responses of the first exchange's read endpoints, and what the reaction
//! reads out of them.
use vstd::prelude::*;
use crate::amount::{parse_positive_amount, positive_amount, same_text};

verus! {

/// One entry of a position-risk response.
#[derive(Debug, Clone)]
pub struct PositionLeverage {
    pub leverage: String,
}

/// Exchange metadata: every listed symbol with its filters.
#[derive(Debug, Clone)]
pub struct ExchangeInfo {
    pub symbols: Vec<Symbol>,
}

#[derive(Debug, Clone)]
pub struct Symbol {
    pub symbol: String,
    pub filters: Vec<Filter>,
}

#[derive(Debug, Clone)]
pub struct Filter {
    pub filter_type: String,
    pub step_size: String,
}

/// A price ticker response.
#[derive(Debug, Clone)]
pub struct PriceTicker {
    pub price: String,
}

/// The ticker's price, when it is a usable amount.
pub fn price_of(ticker: &PriceTicker) -> (r: Option<u64>)
    ensures
        r matches Some(v) ==> positive_amount(ticker.price@) == Some(v as nat),
        r is None ==> positive_amount(ticker.price@) is None,
{
    parse_positive_amount(ticker.price.as_str())
}

/// The leverage of the first position-risk entry; unavailable when there is none.
pub fn leverage_of(positions: &Vec<PositionLeverage>) -> (r: Option<u64>)
    ensures
        positions@.len() == 0 ==> r is None,
        positions@.len() > 0 ==> (r matches Some(v) ==> positive_amount(positions@[0].leverage@)
            == Some(v as nat)),
        positions@.len() > 0 ==> (r is None ==> positive_amount(positions@[0].leverage@) is None),
{
    if positions.len() == 0 {
        None
    } else {
        parse_positive_amount(positions[0].leverage.as_str())
    }
}

/// The first lot-size filter.
pub open spec fn first_lot_filter(filters: Seq<Filter>) -> Option<Filter>
    decreases filters.len(),
{
    if filters.len() == 0 {
        None
    } else if filters[0].filter_type@ == "LOT_SIZE"@ {
        Some(filters[0])
    } else {
        first_lot_filter(filters.drop_first())
    }
}

/// The lot step of a symbol: the step size of its first lot-size filter.
pub open spec fn symbol_step(s: Symbol) -> Option<nat> {
    match first_lot_filter(s.filters@) {
        Some(f) => positive_amount(f.step_size@),
        None => None,
    }
}

pub fn lot_step_of(symbol: &Symbol) -> (r: Option<u64>)
    ensures
        r matches Some(v) ==> symbol_step(*symbol) == Some(v as nat),
        r is None ==> symbol_step(*symbol) is None,
{
    let filters = &symbol.filters;
    let mut i: usize = 0;
    assert(filters@.skip(0) == filters@);
    while i < filters.len()
        invariant
            i <= filters@.len(),
            filters@ == symbol.filters@,
            first_lot_filter(filters@) == first_lot_filter(filters@.skip(i as int)),
        decreases filters@.len() - i,
    {
        assert(filters@.skip(i as int).drop_first() == filters@.skip(i + 1));
        assert(filters@.skip(i as int)[0] == filters@[i as int]);
        if same_text(filters[i].filter_type.as_str(), "LOT_SIZE") {
            assert(first_lot_filter(filters@) == Some(filters@[i as int]));
            return parse_positive_amount(filters[i].step_size.as_str());
        }
        i = i + 1;
    }
    None
}

/// Symbols and their lot steps, in the order given.
pub open spec fn table_entries(symbols: Seq<Symbol>) -> Seq<(Seq<char>, nat)>
    decreases symbols.len(),
{
    if symbols.len() == 0 {
        Seq::empty()
    } else {
        let rest = table_entries(symbols.drop_last());
        match symbol_step(symbols.last()) {
            Some(step) => rest.push((symbols.last().symbol@, step)),
            None => rest,
        }
    }
}

/// The step of the last entry for `pair`.
pub open spec fn table_lookup(entries: Seq<(Seq<char>, nat)>, pair: Seq<char>) -> Option<nat>
    decreases entries.len(),
{
    if entries.len() == 0 {
        None
    } else if entries.last().0 == pair {
        Some(entries.last().1)
    } else {
        table_lookup(entries.drop_last(), pair)
    }
}

/// Lot steps by trade pair, rebuilt between reactions and read during one.
#[derive(Debug, Clone)]
pub struct StepTable {
    pub entries: Vec<(String, u64)>,
}

impl StepTable {
    pub open spec fn entries_view(&self) -> Seq<(Seq<char>, nat)> {
        self.entries@.map_values(|e: (String, u64)| (e.0@, e.1 as nat))
    }

    /// A table with no pair in it.
    pub fn new() -> (r: StepTable)
        ensures
            r.entries_view().len() == 0,
    {
        StepTable { entries: Vec::new() }
    }

    /// The table of every symbol whose lot step is usable; a later entry for
    /// the same pair wins.
    pub fn from_exchange_info(info: &ExchangeInfo) -> (r: StepTable)
        ensures
            r.entries_view() == table_entries(info.symbols@),
    {
        let mut entries: Vec<(String, u64)> = Vec::new();
        let mut i: usize = 0;
        while i < info.symbols.len()
            invariant
                i <= info.symbols@.len(),
                entries@.map_values(|e: (String, u64)| (e.0@, e.1 as nat)) == table_entries(
                    info.symbols@.take(i as int),
                ),
            decreases info.symbols@.len() - i,
        {
            let ghost before = entries@;
            assert(info.symbols@.take(i + 1).drop_last() == info.symbols@.take(i as int));
            match lot_step_of(&info.symbols[i]) {
                Some(step) => {
                    entries.push((info.symbols[i].symbol.clone(), step));
                    assert(entries@.map_values(|e: (String, u64)| (e.0@, e.1 as nat)) =~= before.map_values(
                        |e: (String, u64)| (e.0@, e.1 as nat),
                    ).push((info.symbols@[i as int].symbol@, step as nat)));
                },
                None => {},
            }
            i = i + 1;
        }
        assert(info.symbols@.take(info.symbols@.len() as int) == info.symbols@);
        StepTable { entries }
    }

    /// The lot step of `pair`, when the table has one.
    pub fn step_for(&self, pair: &str) -> (r: Option<u64>)
        ensures
            r matches Some(v) ==> table_lookup(self.entries_view(), pair@) == Some(v as nat),
            r is None ==> table_lookup(self.entries_view(), pair@) is None,
    {
        let ghost ev = self.entries_view();
        let mut i: usize = self.entries.len();
        assert(ev.take(ev.len() as int) == ev);
        while i > 0
            invariant
                i <= self.entries@.len(),
                ev == self.entries_view(),
                table_lookup(ev, pair@) == table_lookup(ev.take(i as int), pair@),
            decreases i,
        {
            assert(ev.take(i as int).drop_last() == ev.take(i - 1));
            assert(ev.take(i as int).last() == ev[i - 1]);
            if same_text(self.entries[i - 1].0.as_str(), pair) {
                return Some(self.entries[i - 1].1);
            }
            i = i - 1;
        }
        assert(ev.take(0) == Seq::<(Seq<char>, nat)>::empty());
        None
    }
}

/// Whether an order was accepted: the exchange answers a rejection with a
/// status outside 200..=299.
pub fn order_accepted(http_status: u16) -> (r: bool)
    ensures
        r == (200 <= http_status <= 299),
{
    200 <= http_status && http_status <= 299
}

/// The answer to a spot market buy, which reports what was executed.
#[derive(Debug, Clone)]
pub struct SpotOrderAnswer {
    /// Quote currency actually spent.
    pub cummulative_quote_qty: String,
}

/// What a spot buy left to unwind, in the quote currency its sells are given
/// in; unavailable unless above zero.
pub fn spot_fill(answer: &SpotOrderAnswer) -> (r: Option<u64>)
    ensures
        r matches Some(v) ==> positive_amount(answer.cummulative_quote_qty@) == Some(v as nat),
        r is None ==> positive_amount(answer.cummulative_quote_qty@) is None,
{
    parse_positive_amount(answer.cummulative_quote_qty.as_str())
}

} // verus!
