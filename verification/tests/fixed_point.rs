use locomotion::fixed::{Fixed, SCALE};

#[test]
fn product_of_two_halves_is_a_quarter() {
    let half = Fixed::from_raw(500_000);
    assert_eq!(half.times(half).raw(), 250_000);
}

#[test]
fn whole_numbers_are_scaled() {
    assert_eq!(Fixed::from_int(3).raw(), 3 * SCALE);
    assert_eq!(Fixed::from_int(-7).raw(), -7 * SCALE);
    assert_eq!(Fixed::one().raw(), SCALE);
    assert_eq!(Fixed::zero().raw(), 0);
}

#[test]
fn whole_numbers_out_of_range_are_clamped() {
    assert_eq!(Fixed::from_int(i64::MAX).raw(), i64::MAX);
    assert_eq!(Fixed::from_int(i64::MIN).raw(), i64::MIN);
}

#[test]
fn sums_and_differences_are_exact_in_range() {
    let a = Fixed::from_raw(1_250_000);
    let b = Fixed::from_raw(-2_000_001);
    assert_eq!(a.plus(b).raw(), -750_001);
    assert_eq!(a.minus(b).raw(), 3_250_001);
    assert_eq!(b.negated().raw(), 2_000_001);
}

#[test]
fn sums_saturate_at_both_ends() {
    let top = Fixed::from_raw(i64::MAX);
    let bottom = Fixed::from_raw(i64::MIN);
    let one = Fixed::from_raw(1);
    assert_eq!(top.plus(one).raw(), i64::MAX);
    assert_eq!(bottom.minus(one).raw(), i64::MIN);
    assert_eq!(bottom.negated().raw(), i64::MAX);
    assert_eq!(top.negated().raw(), -i64::MAX);
}

#[test]
fn products_round_toward_zero() {
    let third = Fixed::from_raw(333_333);
    let three = Fixed::from_int(3);
    assert_eq!(third.times(three).raw(), 999_999);
    assert_eq!(third.negated().times(three).raw(), -999_999);
    let tiny = Fixed::from_raw(1);
    assert_eq!(tiny.times(tiny).raw(), 0);
    assert_eq!(tiny.negated().times(tiny).raw(), 0);
    assert_eq!(Fixed::from_raw(1_999_999).times(tiny).raw(), 1);
    assert_eq!(Fixed::from_raw(-1_999_999).times(tiny).raw(), -1);
}

#[test]
fn products_saturate() {
    let big = Fixed::from_raw(i64::MAX);
    assert_eq!(big.times(big).raw(), i64::MAX);
    assert_eq!(big.times(big.negated()).raw(), i64::MIN);
    assert_eq!(Fixed::from_raw(i64::MIN).times(Fixed::from_raw(i64::MIN)).raw(), i64::MAX);
}

#[test]
fn ratios_round_toward_zero() {
    let one = Fixed::one();
    let three = Fixed::from_int(3);
    assert_eq!(one.over(three).raw(), 333_333);
    assert_eq!(one.negated().over(three).raw(), -333_333);
    assert_eq!(one.over(three.negated()).raw(), -333_333);
    assert_eq!(one.negated().over(three.negated()).raw(), 333_333);
    assert_eq!(Fixed::from_int(2).over(three).raw(), 666_666);
}

#[test]
fn ratios_saturate() {
    let big = Fixed::from_raw(i64::MAX);
    let tiny = Fixed::from_raw(1);
    assert_eq!(big.over(tiny).raw(), i64::MAX);
    assert_eq!(big.over(tiny.negated()).raw(), i64::MIN);
    assert_eq!(Fixed::from_raw(i64::MIN).over(tiny.negated()).raw(), i64::MAX);
}

#[test]
fn ratio_undoes_product_for_exact_values() {
    let a = Fixed::from_raw(9_800_000);
    let b = Fixed::from_raw(2_000_000);
    assert_eq!(a.times(b).raw(), 19_600_000);
    assert_eq!(a.times(b).over(b).raw(), 9_800_000);
}

#[test]
fn halves_round_toward_zero() {
    assert_eq!(Fixed::from_raw(5).halved().raw(), 2);
    assert_eq!(Fixed::from_raw(-5).halved().raw(), -2);
    assert_eq!(Fixed::from_raw(-9_800_000).halved().raw(), -4_900_000);
    assert_eq!(Fixed::from_raw(i64::MIN).halved().raw(), i64::MIN / 2);
}
