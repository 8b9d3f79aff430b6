//! Order quantities: entry sizing from notional, leverage and price, and the
//! share of a held position that one take-profit step sells. All amounts are
//! in units (see `amount`); fractions are in basis points.
use vstd::prelude::*;

verus! {

/// A whole fraction in basis points (100%).
pub const BASIS: u64 = 10_000;

/// Largest multiple of `step` not above `q`; zero when `step` is zero.
pub open spec fn floor_to_step(q: nat, step: nat) -> nat {
    if step == 0 {
        0
    } else {
        (q / step) * step
    }
}

/// `notional * leverage / price` in units, rounded down; zero when the price is zero.
pub open spec fn raw_quantity(notional: nat, leverage: nat, price: nat) -> nat {
    if price == 0 {
        0
    } else {
        (notional * leverage) / price
    }
}

/// `floor((notional * leverage / price) / step) * step`, and zero when the
/// price or the step is zero.
pub open spec fn order_size(notional: nat, leverage: nat, price: nat, step: nat) -> nat {
    floor_to_step(raw_quantity(notional, leverage, price), step)
}

/// `floor((held / step) * fraction) * step`: the quantity that a derivatives
/// take-profit step sells; zero when the step is zero.
pub open spec fn derivative_sell_size(held: nat, step: nat, fraction_bps: nat) -> nat {
    if step == 0 {
        0
    } else {
        ((held * fraction_bps) / ((step * BASIS) as nat)) * step
    }
}

/// `held * fraction`, rounded down to a unit: the amount that a spot
/// take-profit step sells, with no step flooring.
pub open spec fn spot_sell_size(held: nat, fraction_bps: nat) -> nat {
    (held * fraction_bps) / (BASIS as nat)
}

/// Rounds `q` down to a multiple of `step`.
pub fn floor_quantity(q: u128, step: u64) -> (r: u128)
    ensures
        r == floor_to_step(q as nat, step as nat),
        r <= q,
{
    if step == 0 {
        0
    } else {
        let k = q / (step as u128);
        assert(k * step <= q) by (nonlinear_arith)
            requires
                k == q / (step as u128),
                step > 0,
        ;
        k * (step as u128)
    }
}

/// Entry order quantity for a target notional at the given leverage and
/// price, floored to the lot step.
pub fn size(notional: u64, leverage: u64, price: u64, step: u64) -> (r: u128)
    ensures
        r == order_size(notional as nat, leverage as nat, price as nat, step as nat),
        step > 0 ==> r % (step as u128) == 0,
        price == 0 || step == 0 ==> r == 0,
{
    let raw: u128 = if price == 0 {
        0
    } else {
        proof {
            lemma_product_fits(notional as nat, leverage as nat);
        }
        let product = (notional as u128) * (leverage as u128);
        assert(product <= u64::MAX * u64::MAX) by (nonlinear_arith)
            requires
                product == notional * leverage,
        ;
        product / (price as u128)
    };
    let r = floor_quantity(raw, step);
    proof {
        if step > 0 {
            lemma_floor_is_multiple(raw as nat, step as nat);
        }
    }
    r
}

/// What a derivatives take-profit step sells out of `held`.
pub fn derivative_sell_quantity(held: u64, step: u64, fraction_bps: u64) -> (r: u64)
    requires
        fraction_bps <= BASIS,
    ensures
        r == derivative_sell_size(held as nat, step as nat, fraction_bps as nat),
        r <= held,
        step > 0 ==> r % step == 0,
{
    if step == 0 {
        0
    } else {
        proof {
            lemma_product_fits(held as nat, fraction_bps as nat);
            lemma_product_fits(step as nat, BASIS as nat);
        }
        let scaled = (held as u128) * (fraction_bps as u128);
        let k = scaled / ((step as u128) * (BASIS as u128));
        proof {
            lemma_share_bounded(held as nat, step as nat, fraction_bps as nat);
            lemma_floor_is_multiple((held * fraction_bps) as nat / BASIS as nat, step as nat);
            lemma_div_div((held * fraction_bps) as nat, BASIS as nat, step as nat);
        }
        (k * (step as u128)) as u64
    }
}

/// What a spot take-profit step sells out of `held`.
pub fn spot_sell_quantity(held: u64, fraction_bps: u64) -> (r: u64)
    requires
        fraction_bps <= BASIS,
    ensures
        r == spot_sell_size(held as nat, fraction_bps as nat),
        r <= held,
{
    proof {
        lemma_product_fits(held as nat, fraction_bps as nat);
    }
    let scaled = (held as u128) * (fraction_bps as u128);
    assert(scaled / (BASIS as u128) <= held) by (nonlinear_arith)
        requires
            scaled == held * fraction_bps,
            fraction_bps <= 10_000,
    ;
    (scaled / (BASIS as u128)) as u64
}

proof fn lemma_product_fits(a: nat, b: nat)
    requires
        a <= u64::MAX,
        b <= u64::MAX,
    ensures
        a * b <= u128::MAX,
{
    vstd::arithmetic::mul::lemma_mul_upper_bound(a as int, u64::MAX as int, b as int, u64::MAX as int);
}

proof fn lemma_floor_is_multiple(q: nat, step: nat)
    requires
        step > 0,
    ensures
        floor_to_step(q, step) % step == 0,
        floor_to_step(floor_to_step(q, step), step) == floor_to_step(q, step),
        floor_to_step(q, step) <= q,
{
    let k = q / step;
    vstd::arithmetic::div_mod::lemma_mod_multiples_basic(k as int, step as int);
    vstd::arithmetic::div_mod::lemma_div_multiples_vanish(k as int, step as int);
    assert(k * step <= q) by (nonlinear_arith)
        requires
            k == q / step,
            step > 0,
    ;
}

proof fn lemma_div_div(a: nat, b: nat, c: nat)
    requires
        b > 0,
        c > 0,
    ensures
        a / (c * b) == (a / b) / c,
{
    vstd::arithmetic::div_mod::lemma_div_denominator(a as int, b as int, c as int);
    assert(b * c == c * b) by (nonlinear_arith);
}

proof fn lemma_share_bounded(held: nat, step: nat, f: nat)
    requires
        step > 0,
        f <= BASIS,
    ensures
        derivative_sell_size(held, step, f) <= held,
        derivative_sell_size(held, step, f) == floor_to_step((held * f) / (BASIS as nat), step),
{
    lemma_div_div(held * f, BASIS as nat, step);
    let s = (held * f) / (BASIS as nat);
    assert(s <= held) by (nonlinear_arith)
        requires
            s == (held * f) / 10_000,
            f <= 10_000,
    ;
    assert((s / step) * step <= s) by (nonlinear_arith)
        requires
            step > 0,
    ;
}

/// Flooring an entry size to its own step changes nothing, and every entry
/// size is a whole number of steps.
pub proof fn lemma_size_idempotent(notional: nat, leverage: nat, price: nat, step: nat)
    ensures
        floor_to_step(order_size(notional, leverage, price, step), step) == order_size(
            notional,
            leverage,
            price,
            step,
        ),
        step > 0 ==> order_size(notional, leverage, price, step) % step == 0,
        price == 0 || step == 0 ==> order_size(notional, leverage, price, step) == 0,
{
    if step > 0 {
        lemma_floor_is_multiple(raw_quantity(notional, leverage, price), step);
    }
}

} // verus!
