use vecmat::math::approx_equal;
use vecmat::math::approx_zero;
use vecmat::math::clamp;
use vecmat::math::lerp;
use vecmat::math::max;
use vecmat::math::min;

#[test]
fn min_returns_smaller_value() {
    assert_eq!(min(1, 2), 1);
    assert_eq!(min(2, 1), 1);
}

#[test]
fn max_returns_larger_value() {
    assert_eq!(max(1, 2), 2);
    assert_eq!(max(2, 1), 2);
}

#[test]
fn clamp_value_within_range() {
    assert_eq!(clamp(5, 1, 10), 5);
    assert_eq!(clamp(0, 1, 10), 1);
    assert_eq!(clamp(15, 1, 10), 10);
}

#[test]
fn min_max_at_the_extremes() {
    assert_eq!(min(i64::MIN, i64::MAX), i64::MIN);
    assert_eq!(max(i64::MIN, i64::MAX), i64::MAX);
    assert_eq!(min(-3, -3), -3);
    assert_eq!(max(-3, -3), -3);
}

#[test]
fn lerp_endpoints_and_extrapolation() {
    assert_eq!(lerp(10, 20, 0), 10);
    assert_eq!(lerp(10, 20, 1), 20);
    assert_eq!(lerp(10, 20, 2), 30);
    assert_eq!(lerp(20, 10, 1), 10);
    assert_eq!(lerp(-5, 5, 1), 5);
}

#[test]
fn approx_equal_within_integer_epsilon() {
    assert!(approx_equal(1000, 1001, 2));
    assert!(!approx_equal(1000, 1002, 2));
    assert!(approx_equal(-5, 5, 11));
    assert!(!approx_equal(7, 7, 0));
    assert!(approx_equal(i64::MIN, i64::MIN + 1, 2));
    assert!(!approx_equal(i64::MIN, i64::MAX, i64::MAX));
}

#[test]
fn approx_zero_within_integer_epsilon() {
    assert!(approx_zero(1, 2));
    assert!(approx_zero(-1, 2));
    assert!(!approx_zero(2, 2));
    assert!(!approx_zero(0, 0));
    assert!(!approx_zero(i64::MIN, i64::MAX));
}

#[test]
fn clamp_at_the_bounds() {
    assert_eq!(clamp(1, 1, 10), 1);
    assert_eq!(clamp(10, 1, 10), 10);
    assert_eq!(clamp(i64::MIN, -5, 5), -5);
    assert_eq!(clamp(i64::MAX, -5, 5), 5);
}
