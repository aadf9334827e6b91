use raytracer::scalar::isqrt;
use raytracer::scalar::Scalar;

fn s(raw: i64) -> Scalar {
    Scalar { raw }
}

#[test]
fn one_is_a_billion_units() {
    assert_eq!(Scalar::one().raw, 1_000_000_000);
    assert_eq!(Scalar::zero().raw, 0);
    assert_eq!(Scalar::from_int(4).raw, 4_000_000_000);
    assert_eq!(Scalar::from_int(-1).raw, -1_000_000_000);
}

#[test]
fn ratio_rounds_toward_zero() {
    assert_eq!(Scalar::ratio(7, 10).raw, 700_000_000);
    assert_eq!(Scalar::ratio(1, 3).raw, 333_333_333);
    assert_eq!(Scalar::ratio(-1, 3).raw, -333_333_333);
    assert_eq!(Scalar::ratio(1, -3).raw, -333_333_333);
    assert_eq!(Scalar::ratio(-2, -3).raw, 666_666_666);
    assert_eq!(Scalar::ratio(5, 0).raw, 0);
}

#[test]
fn sums_and_differences_clip() {
    assert_eq!((s(5) + s(7)).raw, 12);
    assert_eq!((s(5) - s(7)).raw, -2);
    assert_eq!((s(i64::MAX) + s(1)).raw, i64::MAX);
    assert_eq!((s(i64::MIN) - s(1)).raw, i64::MIN);
    assert_eq!((-s(i64::MIN)).raw, i64::MAX);
    assert_eq!((-s(3)).raw, -3);
}

#[test]
fn products_round_toward_zero_and_clip() {
    assert_eq!((Scalar::ratio(1, 2) * Scalar::ratio(1, 2)).raw, 250_000_000);
    assert_eq!((s(3) * Scalar::ratio(1, 2)).raw, 1);
    assert_eq!((s(-3) * Scalar::ratio(1, 2)).raw, -1);
    assert_eq!((Scalar::from_int(-2) * Scalar::from_int(3)).raw, -6_000_000_000);
    assert_eq!((s(i64::MAX) * Scalar::from_int(2)).raw, i64::MAX);
    assert_eq!((s(i64::MAX) * Scalar::from_int(-2)).raw, i64::MIN);
}

#[test]
fn quotients_round_toward_zero_and_division_by_zero_is_zero() {
    assert_eq!((Scalar::from_int(8) / Scalar::from_int(2)).raw, 4_000_000_000);
    assert_eq!((Scalar::from_int(1) / Scalar::from_int(3)).raw, 333_333_333);
    assert_eq!((Scalar::from_int(-1) / Scalar::from_int(3)).raw, -333_333_333);
    assert_eq!((Scalar::from_int(1) / Scalar::from_int(-3)).raw, -333_333_333);
    assert_eq!((Scalar::from_int(7) / s(0)).raw, 0);
    assert_eq!((s(i64::MAX) / Scalar::ratio(1, 2)).raw, i64::MAX);
}

#[test]
fn square_roots_round_down() {
    assert_eq!(Scalar::from_int(4).sqrt().raw, 2_000_000_000);
    assert_eq!(Scalar::from_int(2).sqrt().raw, 1_414_213_562);
    assert_eq!(Scalar::from_int(0).sqrt().raw, 0);
    assert_eq!(Scalar::from_int(-4).sqrt().raw, 0);
    assert_eq!(s(1).sqrt().raw, 31_622);
}

#[test]
fn integer_square_root_is_exact_at_the_edges() {
    assert_eq!(isqrt(0), 0);
    assert_eq!(isqrt(1), 1);
    assert_eq!(isqrt(3), 1);
    assert_eq!(isqrt(4), 2);
    assert_eq!(isqrt(99), 9);
    assert_eq!(isqrt(100), 10);
    assert_eq!(isqrt(u128::MAX), 18_446_744_073_709_551_615);
    assert_eq!(isqrt(1_000_000_000_000_000_000), 1_000_000_000);
}

#[test]
fn absolute_value_and_maximum() {
    assert_eq!(s(-5).abs().raw, 5);
    assert_eq!(s(5).abs().raw, 5);
    assert_eq!(s(i64::MIN).abs().raw, i64::MAX);
    assert_eq!(s(-5).max(s(0)).raw, 0);
    assert_eq!(s(5).max(s(0)).raw, 5);
    assert_eq!(Scalar::from_count(3).raw, 3_000_000_000);
    assert_eq!(Scalar::default().raw, 0);
}
