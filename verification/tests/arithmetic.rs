use bazooka::fixed::{
    fx_add, fx_clamp, fx_mul, fx_neg, fx_ratio, fx_sub, fx_wrap, isqrt, magnitude, HALF_PI, SCALE,
    TAU,
};
use bazooka::vector::Vec3;

#[test]
fn sums_saturate_at_both_ends() {
    assert_eq!(fx_add(1_500_000, 2_250_000), 3_750_000);
    assert_eq!(fx_add(i64::MAX, 1), i64::MAX);
    assert_eq!(fx_sub(i64::MIN, 1), i64::MIN);
    assert_eq!(fx_sub(5, 7), -2);
    assert_eq!(fx_neg(i64::MIN), i64::MAX);
    assert_eq!(fx_neg(3), -3);
}

#[test]
fn products_round_toward_zero() {
    assert_eq!(fx_mul(1_500_000, 2_000_000), 3_000_000);
    assert_eq!(fx_mul(3, 500_000), 1);
    assert_eq!(fx_mul(-3, 500_000), -1);
    assert_eq!(fx_mul(1, 1), 0);
    assert_eq!(fx_mul(-1, 1), 0);
    assert_eq!(fx_mul(SCALE, -7_123_456), -7_123_456);
    assert_eq!(fx_mul(i64::MAX, i64::MAX), i64::MAX);
    assert_eq!(fx_mul(i64::MAX, i64::MIN), i64::MIN);
}

#[test]
fn ratios_round_toward_zero() {
    assert_eq!(fx_ratio(3_000_000, 5_000_000), 600_000);
    assert_eq!(fx_ratio(-1_000_000, 3_000_000), -333_333);
    assert_eq!(fx_ratio(1_000_000, 3_000_000), 333_333);
    assert_eq!(fx_ratio(i64::MAX, 1), i64::MAX);
}

#[test]
fn magnitude_of_the_least_value_fits() {
    assert_eq!(magnitude(-5), 5);
    assert_eq!(magnitude(5), 5);
    assert_eq!(magnitude(i64::MIN), 1u128 << 63);
}

#[test]
fn square_roots_round_down() {
    assert_eq!(isqrt(0), 0);
    assert_eq!(isqrt(1), 1);
    assert_eq!(isqrt(24), 4);
    assert_eq!(isqrt(25), 5);
    assert_eq!(isqrt(26), 5);
    assert_eq!(isqrt(u128::MAX), u64::MAX as u128);
}

#[test]
fn wrapping_lands_in_the_half_open_range() {
    assert_eq!(fx_wrap(-100_000, 0, TAU), TAU - 100_000);
    assert_eq!(fx_wrap(TAU, 0, TAU), 0);
    assert_eq!(fx_wrap(TAU + 5, 0, TAU), 5);
    assert_eq!(fx_wrap(-TAU, 0, TAU), 0);
    assert_eq!(fx_wrap(0, 0, TAU), 0);
    assert_eq!(fx_wrap(7, -3, 3), 1);
    assert_eq!(fx_wrap(i64::MIN, i64::MAX - 1, i64::MAX), i64::MAX - 1);
}

#[test]
fn clamping_bounds_the_value() {
    assert_eq!(fx_clamp(5, 0, 3), Some(3));
    assert_eq!(fx_clamp(-5, 0, 3), Some(0));
    assert_eq!(fx_clamp(2, 0, 3), Some(2));
    assert_eq!(fx_clamp(2_000_000, -HALF_PI, HALF_PI), Some(HALF_PI));
    assert_eq!(fx_clamp(1, 3, 0), None);
}

#[test]
fn vector_length_and_direction() {
    let v = Vec3::new(3_000_000, 4_000_000, 0);
    assert_eq!(v.norm(), 5_000_000);
    assert_eq!(v.length(), 5_000_000);
    assert_eq!(v.length_squared(), 25_000_000);
    assert_eq!(v.normalized_or_zero(), Vec3::new(600_000, 800_000, 0));
    assert_eq!(Vec3::zero().normalized_or_zero(), Vec3::zero());
    assert_eq!(Vec3::zero().length(), 0);
    assert_eq!(Vec3::new(i64::MIN, i64::MIN, i64::MIN).length(), i64::MAX);
}

#[test]
fn vector_sums_products_and_limits() {
    let a = Vec3::new(1_000_000, 2_000_000, 3_000_000);
    let b = Vec3::new(4_000_000, 5_000_000, 6_000_000);
    assert_eq!(a.plus(b), Vec3::new(5_000_000, 7_000_000, 9_000_000));
    assert_eq!(b.minus(a), Vec3::new(3_000_000, 3_000_000, 3_000_000));
    assert_eq!(a.negated(), Vec3::new(-1_000_000, -2_000_000, -3_000_000));
    assert_eq!(a.scaled(500_000), Vec3::new(500_000, 1_000_000, 1_500_000));
    assert_eq!(a.dot(b), 32_000_000);
    assert_eq!(a.cross(b), Vec3::new(-3_000_000, 6_000_000, -3_000_000));
    let long = Vec3::new(6_000_000, 0, 8_000_000);
    assert_eq!(long.limit_length(5_000_000), Vec3::new(3_000_000, 0, 4_000_000));
    assert_eq!(long.limit_length(10_000_000), long);
    assert_eq!(long.limit_length(20_000_000), long);
}
