use news_rust::sizing::{derivative_sell_quantity, floor_quantity, size, spot_sell_quantity};

const UNIT: u64 = 100_000_000;

#[test]
fn entry_size_formula() {
    // 100 USDT at 20x on a price of 50000 with a 0.001 step: 0.04
    assert_eq!(size(100 * UNIT, 20 * UNIT, 50_000 * UNIT, 100_000), 4_000_000);
    // 100 USDT at 10x on 3 with a step of 1: floor(333.33) = 333
    assert_eq!(size(100 * UNIT, 10 * UNIT, 3 * UNIT, UNIT), 333 * UNIT as u128);
}

#[test]
fn entry_size_is_a_multiple_and_idempotent() {
    let step = 100_000u64;
    let q = size(123 * UNIT, 7 * UNIT, 31 * UNIT, step);
    assert_eq!(q % step as u128, 0);
    assert_eq!(floor_quantity(q, step), q);
}

#[test]
fn entry_size_zero_price_or_step() {
    assert_eq!(size(100 * UNIT, 20 * UNIT, 0, 100_000), 0);
    assert_eq!(size(100 * UNIT, 20 * UNIT, 50_000 * UNIT, 0), 0);
}

#[test]
fn entry_size_largest_inputs() {
    let q = size(u64::MAX, u64::MAX, 1, 1);
    assert_eq!(q, u64::MAX as u128 * u64::MAX as u128);
}

#[test]
fn sell_quantities() {
    // 0.75 of 3.7 with step 0.1: floor(37 * 0.75) = 27 steps = 2.7
    assert_eq!(derivative_sell_quantity(370_000_000, 10_000_000, 7_500), 270_000_000);
    assert_eq!(derivative_sell_quantity(370_000_000, 0, 7_500), 0);
    // spot: 0.25 of 3.7 with no step flooring
    assert_eq!(spot_sell_quantity(370_000_000, 2_500), 92_500_000);
    assert_eq!(spot_sell_quantity(370_000_000, 10_000), 370_000_000);
}
