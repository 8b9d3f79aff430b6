//! Fixed-point amounts. A value is held as an integer count of `UNIT`ths
//! (1e-8), so every quantity the library computes is exact.
use vstd::prelude::*;
use crate::text::chars_of;

verus! {

/// Number of units in one whole (eight decimal places).
pub const UNIT: u64 = 100_000_000;

/// The character of a decimal digit.
pub open spec fn digit_char(d: int) -> char {
    if d == 0 { '0' }
    else if d == 1 { '1' }
    else if d == 2 { '2' }
    else if d == 3 { '3' }
    else if d == 4 { '4' }
    else if d == 5 { '5' }
    else if d == 6 { '6' }
    else if d == 7 { '7' }
    else if d == 8 { '8' }
    else { '9' }
}

/// Decimal digits of `n`, most significant first, without leading zeros.
pub open spec fn digits_of(n: nat) -> Seq<char>
    decreases n,
{
    if n < 10 {
        seq![digit_char(n as int)]
    } else {
        digits_of(n / 10).push(digit_char((n % 10) as int))
    }
}

/// The last `width` decimal digits of `n`, padded with leading zeros.
pub open spec fn padded_digits(n: nat, width: nat) -> Seq<char>
    decreases width,
{
    if width == 0 {
        Seq::empty()
    } else {
        padded_digits(n / 10, (width - 1) as nat).push(digit_char((n % 10) as int))
    }
}

/// `s` without its trailing `'0'` characters.
pub open spec fn strip_trailing_zeros(s: Seq<char>) -> Seq<char>
    decreases s.len(),
{
    if s.len() > 0 && s.last() == '0' {
        strip_trailing_zeros(s.drop_last())
    } else {
        s
    }
}

/// Text of an amount of `u` units: the whole part, then a point and the
/// fractional digits without trailing zeros when the fraction is not zero.
pub open spec fn amount_text(u: nat) -> Seq<char> {
    let whole = digits_of(u / UNIT as nat);
    let frac = u % UNIT as nat;
    if frac == 0 {
        whole
    } else {
        whole + seq!['.'] + strip_trailing_zeros(padded_digits(frac, 8))
    }
}

pub fn digit_to_char(d: u128) -> (c: char)
    requires
        d < 10,
    ensures
        c == digit_char(d as int),
{
    if d == 0 { '0' }
    else if d == 1 { '1' }
    else if d == 2 { '2' }
    else if d == 3 { '3' }
    else if d == 4 { '4' }
    else if d == 5 { '5' }
    else if d == 6 { '6' }
    else if d == 7 { '7' }
    else if d == 8 { '8' }
    else { '9' }
}

/// Appends the decimal digits of `n`.
pub fn push_digits(out: &mut Vec<char>, n: u128)
    ensures
        final(out)@ == old(out)@ + digits_of(n as nat),
    decreases n,
{
    if n >= 10 {
        push_digits(out, n / 10);
    }
    out.push(digit_to_char(n % 10));
}

/// Appends the last `width` digits of `n`, zero padded.
pub fn push_padded_digits(out: &mut Vec<char>, n: u128, width: u32)
    ensures
        final(out)@ == old(out)@ + padded_digits(n as nat, width as nat),
    decreases width,
{
    if width > 0 {
        push_padded_digits(out, n / 10, width - 1);
        out.push(digit_to_char(n % 10));
    }
}

/// Appends the text of an amount of `u` units.
pub fn push_amount(out: &mut Vec<char>, u: u128)
    ensures
        final(out)@ == old(out)@ + amount_text(u as nat),
{
    let ghost start = out@;
    push_digits(out, u / (UNIT as u128));
    let frac = u % (UNIT as u128);
    if frac != 0 {
        out.push('.');
        let mut digits: Vec<char> = Vec::new();
        push_padded_digits(&mut digits, frac, 8);
        let mut end: usize = digits.len();
        assert(digits@.take(end as int) == digits@);
        while end > 0 && digits[end - 1] == '0'
            invariant
                end <= digits@.len(),
                strip_trailing_zeros(digits@) == strip_trailing_zeros(digits@.take(end as int)),
            decreases end,
        {
            proof {
                assert(digits@.take(end as int).drop_last() == digits@.take(end - 1));
            }
            end = end - 1;
        }
        proof {
            assert(strip_trailing_zeros(digits@.take(end as int)) == digits@.take(end as int));
        }
        let mut i: usize = 0;
        while i < end
            invariant
                i <= end <= digits@.len(),
                out@ == start + digits_of((u / (UNIT as u128)) as nat) + seq!['.'] + digits@.take(i as int),
            decreases end - i,
        {
            out.push(digits[i]);
            proof {
                assert(digits@.take(i + 1) == digits@.take(i as int).push(digits@[i as int]));
            }
            i = i + 1;
        }
    }
}

/// The value of a decimal digit character.
pub open spec fn char_digit(c: char) -> Option<nat> {
    if c == '0' { Some(0) }
    else if c == '1' { Some(1) }
    else if c == '2' { Some(2) }
    else if c == '3' { Some(3) }
    else if c == '4' { Some(4) }
    else if c == '5' { Some(5) }
    else if c == '6' { Some(6) }
    else if c == '7' { Some(7) }
    else if c == '8' { Some(8) }
    else if c == '9' { Some(9) }
    else { None }
}

pub open spec fn digit_value(c: char) -> nat {
    match char_digit(c) {
        Some(d) => d,
        None => 0,
    }
}

pub open spec fn all_digits(s: Seq<char>) -> bool {
    forall|i: int| 0 <= i < s.len() ==> (#[trigger] char_digit(s[i])) is Some
}

/// The number that a run of decimal digits denotes.
pub open spec fn digits_value(s: Seq<char>) -> nat
    decreases s.len(),
{
    if s.len() == 0 {
        0
    } else {
        digits_value(s.drop_last()) * 10 + digit_value(s.last())
    }
}

/// The first eight fractional digits, with zeros added where fewer are given.
pub open spec fn eight_places(f: Seq<char>) -> Seq<char> {
    Seq::new(8, |i: int| if i < f.len() { f[i] } else { '0' })
}

/// Position of the first `'.'` in `s`, or its length when there is none.
pub open spec fn point_index(s: Seq<char>) -> nat
    decreases s.len(),
{
    if s.len() == 0 || s[0] == '.' {
        0
    } else {
        1 + point_index(s.drop_first())
    }
}

/// The value, in units, of a decimal text `digits[.digits]`; digits after
/// the eighth decimal place are dropped (rounding toward zero). `None` for
/// any other text and for a value above `u64::MAX` units.
pub open spec fn amount_value(s: Seq<char>) -> Option<nat> {
    let k = point_index(s);
    let whole = s.take(k as int);
    let frac = if k < s.len() { s.skip(k + 1 as int) } else { Seq::<char>::empty() };
    if whole.len() > 0 && all_digits(whole) && all_digits(frac) && (k < s.len() ==> frac.len() > 0) {
        let v = digits_value(whole) * UNIT + digits_value(eight_places(frac));
        if v <= u64::MAX { Some(v as nat) } else { None }
    } else {
        None
    }
}

pub open spec fn pow10(n: nat) -> nat
    decreases n,
{
    if n == 0 { 1 } else { 10 * pow10((n - 1) as nat) }
}

proof fn lemma_point_index(s: Seq<char>, k: int)
    requires
        0 <= k <= s.len(),
        forall|j: int| 0 <= j < k ==> s[j] != '.',
        k == s.len() || s[k] == '.',
    ensures
        point_index(s) == k,
    decreases k,
{
    if k > 0 {
        lemma_point_index(s.drop_first(), k - 1);
    }
}

proof fn lemma_digits_value_grows(s: Seq<char>, i: int)
    requires
        0 <= i <= s.len(),
    ensures
        digits_value(s.take(i)) <= digits_value(s),
    decreases s.len() - i,
{
    if i < s.len() {
        lemma_digits_value_grows(s, i + 1);
        assert(s.take(i + 1).drop_last() == s.take(i));
    } else {
        assert(s.take(i) == s);
    }
}

fn digit_of(c: char) -> (r: Option<u128>)
    ensures
        r is Some <==> char_digit(c) is Some,
        r is Some ==> r->0 == char_digit(c)->0,
{
    if c == '0' { Some(0) }
    else if c == '1' { Some(1) }
    else if c == '2' { Some(2) }
    else if c == '3' { Some(3) }
    else if c == '4' { Some(4) }
    else if c == '5' { Some(5) }
    else if c == '6' { Some(6) }
    else if c == '7' { Some(7) }
    else if c == '8' { Some(8) }
    else if c == '9' { Some(9) }
    else { None }
}

/// Reads a decimal text such as `"43327.40"` as a number of units.
#[verifier::loop_isolation(false)]
pub fn parse_amount(s: &str) -> (r: Option<u64>)
    ensures
        r matches Some(v) ==> amount_value(s@) == Some(v as nat),
        r is None ==> amount_value(s@) is None,
{
    let cs = chars_of(s);
    let n = cs.len();
    let mut k: usize = 0;
    while k < n && cs[k] != '.'
        invariant
            k <= n == cs@.len(),
            forall|j: int| 0 <= j < k ==> cs@[j] != '.',
        decreases n - k,
    {
        k = k + 1;
    }
    proof {
        lemma_point_index(cs@, k as int);
    }
    let ghost whole = cs@.take(k as int);
    let ghost frac = if k < n { cs@.skip(k + 1) } else { Seq::<char>::empty() };
    if k == 0 || (k < n && k + 1 == n) {
        return None;
    }
    let mut w: u128 = 0;
    let mut i: usize = 0;
    while i < k
        invariant
            i <= k <= n == cs@.len(),
            whole == cs@.take(k as int),
            w == digits_value(whole.take(i as int)),
            w <= u64::MAX,
            all_digits(whole.take(i as int)),
        decreases k - i,
    {
        let d = match digit_of(cs[i]) {
            Some(d) => d,
            None => {
                assert(char_digit(whole[i as int]) is None);
                return None;
            },
        };
        assert(whole.take(i + 1).drop_last() == whole.take(i as int));
        w = w * 10 + d;
        if w > u64::MAX as u128 {
            proof {
                lemma_digits_value_grows(whole, i + 1);
                assert(whole.take(i + 1) == cs@.take(k as int).take(i + 1));
                let dv = digits_value(whole);
                assert(dv * UNIT >= dv) by (nonlinear_arith)
                    requires
                        dv >= 0,
                ;
            }
            return None;
        }
        i = i + 1;
        assert forall|j: int| 0 <= j < i implies (#[trigger] char_digit(whole.take(i as int)[j])) is Some by {
            if j < i - 1 {
                assert(whole.take(i as int)[j] == whole.take(i - 1)[j]);
            }
        }
    }
    assert(whole.take(k as int) == whole);
    let mut t: usize = if k < n { k + 1 } else { n };
    while t < n
        invariant
            k < n ==> k + 1 <= t <= n,
            k >= n ==> t == n,
            n == cs@.len(),
            k < n ==> frac == cs@.skip(k + 1),
            forall|j: int| k + 1 <= j < t ==> (#[trigger] char_digit(cs@[j])) is Some,
        decreases n - t,
    {
        if digit_of(cs[t]).is_none() {
            assert(frac[t - k - 1] == cs@[t as int]);
            return None;
        }
        t = t + 1;
    }
    assert(all_digits(frac)) by {
        assert forall|j: int| 0 <= j < frac.len() implies (#[trigger] char_digit(frac[j])) is Some by {
            assert(frac[j] == cs@[k + 1 + j]);
        }
    }
    let ghost places = eight_places(frac);
    let mut f: u128 = 0;
    let mut j: usize = 0;
    while j < 8
        invariant
            j <= 8,
            n == cs@.len(),
            k < n ==> frac == cs@.skip(k + 1),
            k >= n ==> frac.len() == 0,
            all_digits(frac),
            places == eight_places(frac),
            f == digits_value(places.take(j as int)),
            f < pow10(j as nat),
        decreases 8 - j,
    {
        let d: u128 = if k < n && j < n - k - 1 {
            match digit_of(cs[k + 1 + j]) {
                Some(d) => d,
                None => {
                    assert(char_digit(frac[j as int]) is Some);
                    return None;
                },
            }
        } else {
            0
        };
        assert(places.take(j + 1).drop_last() == places.take(j as int));
        assert(pow10(j as nat) <= 10_000_000) by {
            reveal_with_fuel(pow10, 9);
        }
        assert(digit_value(places[j as int]) == d);
        assert(f * 10 + d < pow10(j as nat) * 10) by (nonlinear_arith)
            requires
                f < pow10(j as nat),
                d < 10,
        ;
        f = f * 10 + d;
        j = j + 1;
    }
    assert(places.take(8) == places);
    proof {
        reveal_with_fuel(pow10, 9);
    }
    assert(pow10(8) == 100_000_000);
    let v: u128 = w * (UNIT as u128) + f;
    if v > u64::MAX as u128 {
        None
    } else {
        Some(v as u64)
    }
}

/// A usable price, step or leverage: a decimal text whose value is above zero.
pub open spec fn positive_amount(s: Seq<char>) -> Option<nat> {
    match amount_value(s) {
        Some(v) => if v > 0 { Some(v) } else { None },
        None => None,
    }
}

/// Reads a decimal text that must denote a value above zero; `None` stands
/// for "unavailable".
pub fn parse_positive_amount(s: &str) -> (r: Option<u64>)
    ensures
        r matches Some(v) ==> positive_amount(s@) == Some(v as nat),
        r is None ==> positive_amount(s@) is None,
{
    match parse_amount(s) {
        Some(v) => if v > 0 { Some(v) } else { None },
        None => None,
    }
}

/// Whether two texts are the same.
pub fn same_text(a: &str, b: &str) -> (r: bool)
    ensures
        r == (a@ == b@),
{
    let x = chars_of(a);
    let y = chars_of(b);
    if x.len() != y.len() {
        return false;
    }
    let mut i: usize = 0;
    while i < x.len()
        invariant
            i <= x@.len() == y@.len(),
            x@ == a@,
            y@ == b@,
            forall|j: int| 0 <= j < i ==> x@[j] == y@[j],
        decreases x@.len() - i,
    {
        if x[i] != y[i] {
            assert(a@[i as int] != b@[i as int]);
            return false;
        }
        i = i + 1;
    }
    assert(x@ =~= y@);
    true
}

} // verus!
