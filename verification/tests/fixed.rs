use platformer::fixed::{Fixed, SCALE};

fn fx(raw: i64) -> Fixed {
    Fixed::from_raw(raw)
}

#[test]
fn product_is_rounded_toward_zero() {
    assert_eq!(fx(1_500_000).mul(fx(-333_333)).raw, -499_999);
    assert_eq!(fx(-333_333).mul(fx(1_500_000)).raw, -499_999);
    assert_eq!(fx(1_500_000).mul(fx(333_333)).raw, 499_999);
}

#[test]
fn quotient_is_rounded_toward_zero() {
    assert_eq!(fx(SCALE).div(fx(3 * SCALE)).raw, 333_333);
    assert_eq!(fx(-SCALE).div(fx(3 * SCALE)).raw, -333_333);
    assert_eq!(fx(-SCALE).div(fx(-3 * SCALE)).raw, 333_333);
    assert_eq!(fx(7 * SCALE).div(fx(2 * SCALE)).raw, 3_500_000);
}

#[test]
fn division_by_zero_goes_to_the_end_of_the_range() {
    assert_eq!(fx(1).div(fx(0)).raw, i64::MAX);
    assert_eq!(fx(-1).div(fx(0)).raw, i64::MIN);
    assert_eq!(fx(0).div(fx(0)).raw, 0);
}

#[test]
fn sums_saturate() {
    assert_eq!(fx(i64::MAX).add(fx(1)).raw, i64::MAX);
    assert_eq!(fx(i64::MIN).sub(fx(1)).raw, i64::MIN);
    assert_eq!(fx(i64::MIN).neg().raw, i64::MAX);
    assert_eq!(fx(i64::MIN).abs().raw, i64::MAX);
    assert_eq!(fx(2 * SCALE).add(fx(-5 * SCALE)).raw, -3 * SCALE);
}

#[test]
fn products_saturate() {
    assert_eq!(fx(i64::MAX).mul(fx(2 * SCALE)).raw, i64::MAX);
    assert_eq!(fx(i64::MAX).mul(fx(-2 * SCALE)).raw, i64::MIN);
    assert_eq!(Fixed::from_int(i64::MAX).raw, i64::MAX);
    assert_eq!(Fixed::from_int(-7).raw, -7_000_000);
}

#[test]
fn square_root_is_rounded_down() {
    assert_eq!(fx(2 * SCALE).sqrt().raw, 1_414_213);
    assert_eq!(fx(4 * SCALE).sqrt().raw, 2 * SCALE);
    assert_eq!(fx(0).sqrt().raw, 0);
    assert_eq!(fx(-4 * SCALE).sqrt().raw, 0);
    assert_eq!(fx(1).sqrt().raw, 1_000);
    assert_eq!(fx(i64::MAX).sqrt().raw, 3_037_000_499_976);
}

#[test]
fn rounding_goes_away_from_zero_at_a_half() {
    assert_eq!(fx(2_500_000).round().raw, 3_000_000);
    assert_eq!(fx(-2_500_000).round().raw, -3_000_000);
    assert_eq!(fx(2_499_999).round().raw, 2_000_000);
    assert_eq!(fx(-2_499_999).round().raw, -2_000_000);
    assert_eq!(fx(0).round().raw, 0);
}

#[test]
fn truncation_drops_the_fraction() {
    assert_eq!(fx(2_999_999).trunc(), 2);
    assert_eq!(fx(-2_999_999).trunc(), -2);
    assert_eq!(fx(i64::MAX).trunc(), i32::MAX);
    assert_eq!(fx(i64::MIN).trunc(), i32::MIN);
}

#[test]
fn ratio_of_counts() {
    assert_eq!(Fixed::ratio(250, 1000).raw, 250_000);
    assert_eq!(Fixed::ratio(1, 3).raw, 333_333);
    assert_eq!(Fixed::ratio(5, 0).raw, i64::MAX);
    assert_eq!(Fixed::ratio(0, 0).raw, 0);
    assert_eq!(Fixed::ratio(u64::MAX, 1).raw, i64::MAX);
}

#[test]
fn smaller_and_larger() {
    assert_eq!(fx(3).min(fx(-4)).raw, -4);
    assert_eq!(fx(3).max(fx(-4)).raw, 3);
    assert_eq!(Fixed::zero().raw, 0);
    assert_eq!(Fixed::one().raw, SCALE);
}
