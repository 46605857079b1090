use ciya_lib::scalar::Scalar;
use num::{BigInt, BigRational};

fn frac(numer: i64, denom: i64) -> Scalar {
    Scalar::new(numer, denom)
}

fn ratio(numer: i64, denom: i64) -> BigRational {
    BigRational::new(BigInt::from(numer), BigInt::from(denom))
}

#[test]
fn fractions_are_equal_by_value() {
    assert_eq!(frac(1, 2), frac(2, 4));
    assert_eq!(frac(-3, 6), frac(1, -2));
    assert_ne!(frac(1, 2), frac(1, 3));
    assert_eq!(Scalar::from_int(7), frac(7, 1));
    assert_eq!(frac(1, 2).to_ratio(), Some(ratio(1, 2)));
    assert_eq!(Scalar::from_ratio(ratio(5, 10)), frac(1, 2));
}

#[test]
fn a_zero_denominator_is_no_number() {
    assert!(frac(1, 0).is_irregular());
    assert!(frac(0, 0).is_irregular());
    assert!(!frac(0, 1).is_irregular());
    assert!(Scalar::undefined().is_irregular());
    assert_eq!(Scalar::undefined().to_ratio(), None);
}

#[test]
fn no_number_equals_nothing() {
    assert_ne!(Scalar::undefined(), Scalar::undefined());
    assert_ne!(Scalar::undefined(), frac(0, 1));
    assert!(Scalar::undefined().clone().is_irregular());
}

#[test]
fn arithmetic_is_exact() {
    assert_eq!(frac(1, 2).plus(&frac(1, 3)), frac(5, 6));
    assert_eq!(frac(1, 2).minus(&frac(1, 3)), frac(1, 6));
    assert_eq!(frac(2, 3).times(&frac(3, 4)), frac(1, 2));
    assert_eq!(frac(2, 3).over(&frac(4, 9)), frac(3, 2));
    assert_eq!(frac(1, 10).plus(&frac(2, 10)), frac(3, 10));
    let big = Scalar::from_int(i64::MAX);
    assert_eq!(big.times(&big).over(&big), big);
    assert_eq!(big.plus(&big).minus(&big), big);
}

#[test]
fn division_by_zero_is_no_number() {
    assert!(frac(1, 2).over(&frac(0, 5)).is_irregular());
    assert!(frac(0, 1).over(&frac(0, 1)).is_irregular());
    assert_eq!(frac(0, 1).over(&frac(1, 2)), frac(0, 1));
}

#[test]
fn no_number_spreads() {
    let none = Scalar::undefined();
    let one = Scalar::from_int(1);
    assert!(none.plus(&one).is_irregular());
    assert!(one.plus(&none).is_irregular());
    assert!(none.minus(&one).is_irregular());
    assert!(one.minus(&none).is_irregular());
    assert!(none.times(&Scalar::from_int(0)).is_irregular());
    assert!(Scalar::from_int(0).times(&none).is_irregular());
    assert!(none.over(&one).is_irregular());
    assert!(one.over(&none).is_irregular());
    assert!(none.sqrt().is_irregular());
    assert_eq!(none.to_u32(), None);
    assert_eq!(none.to_i64(), None);
}

#[test]
fn numbers_compare_by_value() {
    assert!(frac(1, 3) < frac(1, 2));
    assert!(frac(-1, 2) < frac(-1, 3));
    assert!(frac(2, 4) <= frac(1, 2));
    assert!(frac(2, 4) >= frac(1, 2));
    assert!(frac(7, 2) > frac(3, 1));
    assert_eq!(frac(1, 3).partial_cmp(&frac(1, 2)), Some(std::cmp::Ordering::Less));
    assert_eq!(frac(1, 2).partial_cmp(&frac(2, 4)), Some(std::cmp::Ordering::Equal));
    assert_eq!(frac(1, 2).partial_cmp(&frac(1, 3)), Some(std::cmp::Ordering::Greater));
}

#[test]
fn no_number_does_not_compare() {
    let none = Scalar::undefined();
    let one = Scalar::from_int(1);
    assert_eq!(none.partial_cmp(&one), None);
    assert_eq!(one.partial_cmp(&none), None);
    assert_eq!(none.partial_cmp(&none), None);
    assert!(!(none < one) && !(none > one) && !(none <= one) && !(none >= one));
}

#[test]
fn square_roots_of_squares_are_exact() {
    assert_eq!(Scalar::from_int(4).sqrt(), Scalar::from_int(2));
    assert_eq!(Scalar::from_int(0).sqrt(), Scalar::from_int(0));
    assert_eq!(frac(1, 4).sqrt(), frac(1, 2));
    assert_eq!(frac(9, 16).sqrt(), frac(3, 4));
    assert_eq!(Scalar::from_int(1 << 40).sqrt(), Scalar::from_int(1 << 20));
}

#[test]
fn square_roots_are_rounded_down_to_the_grid() {
    assert_eq!(frac(3, 4).sqrt(), frac(14529495, 16777216));
    assert_eq!(Scalar::from_int(2).sqrt(), frac(11863283, 8388608));
    // just below a square: one step below its root
    let grid = 16777216i64;
    let below = Scalar::from_int(1).minus(&frac(1, grid * grid));
    assert_eq!(below.sqrt(), frac(grid - 1, grid));
    // the square of a multiple of the grid needs no rounding
    assert_eq!(frac(9 * 9, grid * grid).sqrt(), frac(9, grid));
    // smaller than the square of one step: zero
    assert_eq!(frac(1, 2 * grid * grid).sqrt(), frac(0, 1));
}

#[test]
fn square_root_of_a_negative_number_is_no_number() {
    assert!(frac(-1, 1000000).sqrt().is_irregular());
    assert!(Scalar::from_int(-4).sqrt().is_irregular());
}

#[test]
fn whole_numbers_round_towards_zero() {
    assert_eq!(frac(7, 2).to_u32(), Some(3));
    assert_eq!(frac(7, 2).to_i64(), Some(3));
    assert_eq!(frac(-7, 2).to_i64(), Some(-3));
    assert_eq!(frac(-1, 2).to_u32(), Some(0));
    assert_eq!(frac(-1, 1).to_u32(), None);
    assert_eq!(frac(-3, 2).to_u32(), None);
    assert_eq!(Scalar::from_int(u32::MAX as i64).to_u32(), Some(u32::MAX));
    assert_eq!(Scalar::from_int(u32::MAX as i64).plus(&frac(1, 2)).to_u32(), Some(u32::MAX));
    assert_eq!(Scalar::from_int(u32::MAX as i64 + 1).to_u32(), None);
    assert_eq!(Scalar::from_int(i64::MAX).to_i64(), Some(i64::MAX));
    assert_eq!(Scalar::from_int(i64::MIN).to_i64(), Some(i64::MIN));
    assert_eq!(Scalar::from_int(i64::MAX).plus(&Scalar::from_int(1)).to_i64(), None);
    assert_eq!(Scalar::from_int(i64::MIN).minus(&frac(1, 2)).to_i64(), Some(i64::MIN));
    assert_eq!(Scalar::from_int(i64::MIN).minus(&Scalar::from_int(1)).to_i64(), None);
}

#[test]
fn every_finite_float_is_a_scalar() {
    let q = BigRational::from_float(0.3f32).unwrap();
    let s = Scalar::from_ratio(q.clone());
    assert!(!s.is_irregular());
    assert_ne!(s, frac(3, 10));
    assert_eq!(s, frac(10066330, 33554432));
    assert_eq!(s.to_ratio(), Some(q));
    assert!(BigRational::from_float(f32::NAN).is_none());
}

#[test]
fn a_ratio_without_a_positive_denominator_is_no_number() {
    let none = BigRational::new_raw(BigInt::from(1), BigInt::from(0));
    assert!(Scalar::from_ratio(none).is_irregular());
    let turned = BigRational::new_raw(BigInt::from(1), BigInt::from(-2));
    assert!(Scalar::from_ratio(turned).is_irregular());
    let zero = BigRational::new_raw(BigInt::from(0), BigInt::from(0));
    assert!(Scalar::from_ratio(zero).is_irregular());
}

#[test]
fn a_ratio_that_is_not_reduced_is_its_number() {
    let half = Scalar::from_ratio(BigRational::new_raw(BigInt::from(2), BigInt::from(4)));
    assert_eq!(half, frac(1, 2));
    assert_eq!(half.plus(&frac(1, 2)), frac(1, 1));
    assert_eq!(half.times(&frac(4, 1)), frac(2, 1));
    assert_eq!(half.over(&frac(1, 4)), frac(2, 1));
    assert!(half < frac(3, 4) && half > frac(1, 4));
    assert_eq!(half.to_i64(), Some(0));
    assert_eq!(half.minus(&frac(1, 4)).sqrt(), frac(1, 2));
}
