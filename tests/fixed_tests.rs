use cordic::fixed::{FRAC_BITS, ONE_RAW};
use cordic::FixedPoint;

fn n(v: i32) -> FixedPoint {
    FixedPoint::from_int(v)
}

#[test]
fn scale_is_two_to_the_fraction_bits() {
    assert_eq!(ONE_RAW, 1i64 << FRAC_BITS);
    assert_eq!(n(3).raw(), 3 * ONE_RAW);
}

#[test]
fn add_and_sub_are_exact() {
    assert_eq!(n(2) + n(3), n(5));
    assert_eq!(n(2) - n(3), n(-1));
    assert_eq!((FixedPoint::from_raw(1) + FixedPoint::from_raw(2)).raw(), 3);
}

#[test]
fn mul_rounds_toward_zero() {
    assert_eq!(n(3) * n(-4), n(-12));
    let half = FixedPoint::from_raw(ONE_RAW / 2);
    assert_eq!(half * half, FixedPoint::from_raw(ONE_RAW / 4));
    let tiny = FixedPoint::from_raw(3);
    assert_eq!((tiny * half).raw(), 1);
    assert_eq!((FixedPoint::from_raw(-3) * half).raw(), -1);
}

#[test]
fn div_rounds_toward_zero() {
    assert_eq!(n(12) / n(-4), n(-3));
    assert_eq!(n(1) / n(2), FixedPoint::from_raw(ONE_RAW / 2));
    assert_eq!((FixedPoint::from_raw(3) / n(2)).raw(), 1);
    assert_eq!((FixedPoint::from_raw(-3) / n(2)).raw(), -1);
}

#[test]
fn rem_takes_the_sign_of_the_dividend() {
    assert_eq!(n(7) % n(2), n(1));
    assert_eq!(n(-7) % n(2), n(-1));
    assert_eq!(n(7) % n(-2), n(1));
    assert_eq!(n(-7) % n(-2), n(-1));
    assert_eq!(n(6) % n(3), n(0));
}

#[test]
fn ordering_follows_the_value() {
    assert!(n(-1) < n(0));
    assert!(n(2) > n(1));
    assert!(n(1) <= n(1));
    assert_eq!(n(1).partial_cmp(&n(1)), Some(std::cmp::Ordering::Equal));
    assert!(n(-1).is_negative());
    assert!(!n(0).is_negative());
}

#[test]
fn decimal_rendering() {
    assert_eq!(n(-3).to_decimal_string(), "-3.000000000");
    assert_eq!(n(0).to_decimal_string(), "0.000000000");
    assert_eq!(n(1234).to_decimal_string(), "1234.000000000");
    assert_eq!(FixedPoint::from_raw(ONE_RAW / 2).to_decimal_string(), "0.500000000");
    assert_eq!(FixedPoint::from_raw(ONE_RAW + ONE_RAW / 4).to_decimal_string(), "1.250000000");
    assert_eq!(FixedPoint::from_raw(1).to_decimal_string(), "0.000000000");
    assert_eq!(FixedPoint::from_raw(-ONE_RAW / 1024).to_decimal_string(), "-0.000976562");
    assert_eq!(FixedPoint::from_raw(i64::MIN).to_decimal_string(), "-8589934592.000000000");
}
