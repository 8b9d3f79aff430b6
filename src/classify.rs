//! Title classification: which listing an announcement reports, and the
//! asset symbols it names.
use vstd::prelude::*;
use crate::text::chars_of;

verus! {

/// The category of an announcement; it decides the extraction pattern and
/// the take-profit ladder.
#[derive(Debug, Clone, Copy, PartialEq, Eq, Hash, Structural)]
pub enum ListingKind {
    BinanceListing,
    UpbitListing,
    BinanceFuturesListing,
    BithumbListing,
    NoListing,
}

/// Why a title that matched a trigger yielded no symbols.
#[derive(Debug, Clone, Copy, PartialEq, Eq, Structural)]
pub enum ClassifyError {
    /// The extraction pattern did not compile.
    BadPattern,
    /// The pattern matched nowhere in the title.
    NoSymbol,
}

/// Whether `p` occurs in `s` as a contiguous run.
pub open spec fn contains_seq(s: Seq<char>, p: Seq<char>) -> bool {
    exists|i: int| 0 <= i && i + p.len() <= s.len() && #[trigger] s.subrange(i, i + p.len()) == p
}

/// The first trigger that the title contains decides its kind.
pub open spec fn title_kind(t: Seq<char>) -> ListingKind {
    if contains_seq(t, "Binance Will List"@) {
        ListingKind::BinanceListing
    } else if contains_seq(t, "마켓 디지털 자산 추가"@) {
        ListingKind::UpbitListing
    } else if contains_seq(t, "Binance Futures Will Launch USDⓈ-M"@) {
        ListingKind::BinanceFuturesListing
    } else if contains_seq(t, "원화 마켓 추가"@) {
        ListingKind::BithumbListing
    } else {
        ListingKind::NoListing
    }
}

/// The extraction pattern of each kind; capture group 1 is the symbol.
pub open spec fn pattern_text(kind: ListingKind) -> Seq<char> {
    match kind {
        ListingKind::BinanceListing => r"\([\d]*([^()]+)\)"@,
        ListingKind::UpbitListing => r"[\( ](\w*)[,\)]"@,
        ListingKind::BinanceFuturesListing => r"(?<=USDⓈ-M )\d*(.*)(?= Perpetual)"@,
        ListingKind::BithumbListing => r"\([\d]*([^()]+)\)"@,
        ListingKind::NoListing => ""@,
    }
}

/// The non-empty captured texts of the matches, in order.
pub open spec fn present_groups(g: Seq<Option<Seq<char>>>) -> Seq<Seq<char>>
    decreases g.len(),
{
    if g.len() == 0 {
        Seq::empty()
    } else {
        let p = present_groups(g.drop_last());
        match g.last() {
            Some(s) => if s.len() > 0 {
                p.push(s)
            } else {
                p
            },
            None => p,
        }
    }
}

/// The outcome of classifying a title of kind `kind` whose pattern search gave `groups`.
pub open spec fn classification(kind: ListingKind, groups: Option<Seq<Option<Seq<char>>>>) -> Result<
    (Seq<Seq<char>>, ListingKind),
    ClassifyError,
> {
    if kind == ListingKind::NoListing {
        Ok((Seq::empty(), ListingKind::NoListing))
    } else {
        match groups {
            None => Err(ClassifyError::BadPattern),
            Some(g) => if present_groups(g).len() == 0 {
                Err(ClassifyError::NoSymbol)
            } else {
                Ok((present_groups(g), kind))
            },
        }
    }
}

pub open spec fn classified_view(r: Result<(Vec<String>, ListingKind), ClassifyError>) -> Result<
    (Seq<Seq<char>>, ListingKind),
    ClassifyError,
> {
    match r {
        Ok((v, k)) => Ok((v.deep_view(), k)),
        Err(e) => Err(e),
    }
}

/// What the pattern search of `pattern` over `text` yields.
pub uninterp spec fn group_one_matches(pattern: Seq<char>, text: Seq<char>) -> Option<
    Seq<Option<Seq<char>>>,
>;

/// Whether `pattern` occurs in `s`.
pub fn has_substring(s: &str, pattern: &str) -> (r: bool)
    ensures
        r == contains_seq(s@, pattern@),
{
    let t = chars_of(s);
    let p = chars_of(pattern);
    if p.len() > t.len() {
        return false;
    }
    let last = t.len() - p.len();
    let mut i: usize = 0;
    while i <= last
        invariant
            t@ == s@,
            p@ == pattern@,
            last == t@.len() - p@.len(),
            i <= last + 1,
            forall|k: int| 0 <= k < i ==> #[trigger] t@.subrange(k, k + p@.len()) != p@,
        decreases last + 1 - i,
    {
        let mut j: usize = 0;
        while j < p.len() && t[i + j] == p[j]
            invariant
                t@ == s@,
                p@ == pattern@,
                i <= last == t@.len() - p@.len(),
                t@.len() == t.len(),
                j <= p@.len(),
                forall|m: int| 0 <= m < j ==> t@[i + m] == p@[m],
            decreases p@.len() - j,
        {
            j = j + 1;
        }
        if j == p.len() {
            assert(t@.subrange(i as int, i + p@.len()) =~= p@);
            return true;
        }
        assert(t@.subrange(i as int, i + p@.len())[j as int] != p@[j as int]);
        if i == last {
            assert forall|k: int| 0 <= k && k + p@.len() <= t@.len() implies #[trigger] t@.subrange(
                k,
                k + p@.len(),
            ) != p@ by {
                assert(k <= i);
            }
            return false;
        }
        i = i + 1;
    }
    assert forall|k: int| 0 <= k && k + p@.len() <= t@.len() implies #[trigger] t@.subrange(k, k + p@.len())
        != p@ by {
        assert(k < i);
    }
    false
}

/// Relies on fancy_regex: `Regex::new` compiles `pattern` (`None` when it
/// does not), and `Regex::captures_iter` walks the non-overlapping matches in
/// `text` from left to right. Each entry is capture group 1 of one match, or
/// `None` where that search step failed or the group took no part. A group's
/// `Match::as_str` is a slice of `text` itself.
#[verifier::external_body]
fn regex_group_one(pattern: &str, text: &str) -> (r: Option<Vec<Option<String>>>)
    ensures
        r.deep_view() == group_one_matches(pattern@, text@),
        r.deep_view() matches Some(g) ==> forall|i: int|
            0 <= i < g.len() && (#[trigger] g[i]) is Some ==> contains_seq(text@, g[i]->0),
{
    match fancy_regex::Regex::new(pattern) {
        Ok(re) => Some(
            re.captures_iter(text).map(
                |c| c.ok().and_then(|c| c.get(1)).map(|m| m.as_str().to_string()),
            ).collect(),
        ),
        Err(_) => None,
    }
}

/// The kind of a title and the pattern that extracts its symbols.
pub fn title_case(title: &str) -> (r: (&'static str, ListingKind))
    ensures
        r.1 == title_kind(title@),
        r.0@ == pattern_text(r.1),
{
    if has_substring(title, "Binance Will List") {
        (r"\([\d]*([^()]+)\)", ListingKind::BinanceListing)
    } else if has_substring(title, "마켓 디지털 자산 추가") {
        (r"[\( ](\w*)[,\)]", ListingKind::UpbitListing)
    } else if has_substring(title, "Binance Futures Will Launch USDⓈ-M") {
        (r"(?<=USDⓈ-M )\d*(.*)(?= Perpetual)", ListingKind::BinanceFuturesListing)
    } else if has_substring(title, "원화 마켓 추가") {
        (r"\([\d]*([^()]+)\)", ListingKind::BithumbListing)
    } else {
        ("", ListingKind::NoListing)
    }
}

/// Turns the pattern search over a title of kind `kind` into its symbols.
pub fn symbols_from_groups(kind: ListingKind, groups: Option<Vec<Option<String>>>) -> (r: Result<
    (Vec<String>, ListingKind),
    ClassifyError,
>)
    ensures
        classified_view(r) == classification(kind, groups.deep_view()),
{
    if kind == ListingKind::NoListing {
        let empty: Vec<String> = Vec::new();
        assert(empty.deep_view() == Seq::<Seq<char>>::empty());
        return Ok((empty, ListingKind::NoListing));
    }
    match groups {
        None => Err(ClassifyError::BadPattern),
        Some(g) => {
            let ghost gv = g.deep_view();
            let mut symbols: Vec<String> = Vec::new();
            let mut i: usize = 0;
            while i < g.len()
                invariant
                    i <= g@.len(),
                    gv == g.deep_view(),
                    symbols.deep_view() == present_groups(gv.take(i as int)),
                decreases g@.len() - i,
            {
                assert(gv.take(i + 1).drop_last() == gv.take(i as int));
                match &g[i] {
                    Some(s) => {
                        if s.as_str().unicode_len() > 0 {
                            symbols.push(s.clone());
                            assert(symbols.deep_view() == present_groups(gv.take(i as int)).push(s@));
                        }
                    },
                    None => {},
                }
                i = i + 1;
            }
            assert(gv.take(g@.len() as int) == gv);
            if symbols.len() == 0 {
                Err(ClassifyError::NoSymbol)
            } else {
                Ok((symbols, kind))
            }
        },
    }
}

proof fn lemma_present_groups_within(g: Seq<Option<Seq<char>>>, t: Seq<char>)
    requires
        forall|i: int| 0 <= i < g.len() && (#[trigger] g[i]) is Some ==> contains_seq(t, g[i]->0),
    ensures
        forall|j: int|
            0 <= j < present_groups(g).len() ==> (#[trigger] present_groups(g)[j]).len() > 0
                && contains_seq(t, present_groups(g)[j]),
    decreases g.len(),
{
    if g.len() > 0 {
        let d = g.drop_last();
        assert forall|i: int| 0 <= i < d.len() && (#[trigger] d[i]) is Some implies contains_seq(t, d[i]->0) by {
            assert(d[i] == g[i]);
        }
        lemma_present_groups_within(d, t);
        assert(g.last() == g[g.len() - 1]);
        let p = present_groups(d);
        if let Some(last) = g.last() {
            if last.len() > 0 {
                assert(present_groups(g) == p.push(last));
                assert forall|j: int| 0 <= j < present_groups(g).len() implies (#[trigger] present_groups(
                    g,
                )[j]).len() > 0 && contains_seq(t, present_groups(g)[j]) by {
                    if j < p.len() {
                        assert(present_groups(g)[j] == p[j]);
                    }
                }
            }
        }
    }
}

/// Classifies an announcement title: its listing kind and, for a listing,
/// the symbols that its pattern captures, in order of appearance.
pub fn process_title(title: &str) -> (r: Result<(Vec<String>, ListingKind), ClassifyError>)
    ensures
        title_kind(title@) == ListingKind::NoListing ==> classified_view(r) == Ok::<
            (Seq<Seq<char>>, ListingKind),
            ClassifyError,
        >((Seq::empty(), ListingKind::NoListing)),
        title_kind(title@) != ListingKind::NoListing ==> classified_view(r) == classification(
            title_kind(title@),
            group_one_matches(pattern_text(title_kind(title@)), title@),
        ),
        r matches Ok((v, k)) ==> forall|j: int|
            0 <= j < v@.len() ==> (#[trigger] v@[j])@.len() > 0 && contains_seq(title@, v@[j]@),
{
    let (pattern, kind) = title_case(title);
    let r = if kind == ListingKind::NoListing {
        symbols_from_groups(kind, None)
    } else {
        let groups = regex_group_one(pattern, title);
        proof {
            if let Some(g) = groups.deep_view() {
                lemma_present_groups_within(g, title@);
            }
        }
        symbols_from_groups(kind, groups)
    };
    proof {
        if let Ok((v, k)) = &r {
            assert forall|j: int| 0 <= j < v@.len() implies (#[trigger] v@[j])@.len() > 0 && contains_seq(
                title@,
                v@[j]@,
            ) by {
                assert(v.deep_view().len() == v@.len());
                assert(v.deep_view()[j] == v@[j]@);
                if kind != ListingKind::NoListing {
                    let g = group_one_matches(pattern_text(kind), title@)->0;
                    assert(v.deep_view() == present_groups(g));
                }
            }
        }
    }
    r
}

} // verus!
