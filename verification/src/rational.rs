//! Exact rational arithmetic, supplied by the `num` crate.
//!
//! Nothing in this file is proved. Each function below makes one call into
//! `num` and states, over [`ratio_value`], what that call computes. The
//! statements hold of ratios that are well formed, [`ratio_sound`]: `num`
//! lets a ratio be built with any denominator, and divides or compares
//! wrongly where it is zero or negative. So every function here asks for
//! well-formed ratios and gives well-formed ratios back. The rest of the
//! crate reasons from these statements alone.
use vstd::prelude::*;

verus! {

#[verifier::external_type_specification]
#[verifier::external_body]
pub struct ExBigInt(num::bigint::BigInt);

#[verifier::external_type_specification]
#[verifier::external_body]
#[verifier::reject_recursive_types(T)]
pub struct ExRatio<T>(num::rational::Ratio<T>);

/// The real number that an arbitrary-precision ratio denotes: its numerator
/// divided by its denominator. It means nothing where the denominator is
/// zero.
pub uninterp spec fn ratio_value(q: num::BigRational) -> real;

/// Whether a ratio is well formed: its denominator is positive.
pub uninterp spec fn ratio_sound(q: num::BigRational) -> bool;

/// Rounding towards zero.
pub open spec fn truncate(v: real) -> int {
    if v >= 0real {
        v.floor()
    } else {
        -((-v).floor())
    }
}

/// The integer `n` as a real number.
pub open spec fn whole_number(n: int) -> real {
    n as real
}

/// Whether a number is whole.
#[verifier::opaque]
pub open spec fn is_whole(v: real) -> bool {
    exists|n: int| v == #[trigger] whole_number(n)
}

/// `Ratio::new` on two machine integers: the ratio `numer / denom`. The
/// outside function panics on a zero denominator, which the precondition
/// excludes.
#[verifier::external_body]
pub(crate) fn ratio_new(numer: i64, denom: i64) -> (r: num::BigRational)
    requires
        denom != 0,
    ensures
        ratio_sound(r),
        ratio_value(r) == numer as real / denom as real,
{
    num::BigRational::new(num::BigInt::from(numer), num::BigInt::from(denom))
}

/// `Signed::is_positive` of `Ratio::denom`: whether the ratio is well
/// formed.
#[verifier::external_body]
pub(crate) fn ratio_is_sound(q: &num::BigRational) -> (r: bool)
    ensures
        r == ratio_sound(*q),
{
    num::Signed::is_positive(q.denom())
}

/// `Clone::clone` of a ratio: a second ratio of the same numerator and
/// denominator.
#[verifier::external_body]
pub(crate) fn ratio_clone(q: &num::BigRational) -> (r: num::BigRational)
    ensures
        ratio_sound(r) == ratio_sound(*q),
        ratio_value(r) == ratio_value(*q),
{
    q.clone()
}

/// `Add::add` of two ratios: their exact sum.
#[verifier::external_body]
pub(crate) fn ratio_add(a: &num::BigRational, b: &num::BigRational) -> (r: num::BigRational)
    requires
        ratio_sound(*a),
        ratio_sound(*b),
    ensures
        ratio_sound(r),
        ratio_value(r) == ratio_value(*a) + ratio_value(*b),
{
    a + b
}

/// `Sub::sub` of two ratios: their exact difference.
#[verifier::external_body]
pub(crate) fn ratio_sub(a: &num::BigRational, b: &num::BigRational) -> (r: num::BigRational)
    requires
        ratio_sound(*a),
        ratio_sound(*b),
    ensures
        ratio_sound(r),
        ratio_value(r) == ratio_value(*a) - ratio_value(*b),
{
    a - b
}

/// `Mul::mul` of two ratios: their exact product.
#[verifier::external_body]
pub(crate) fn ratio_mul(a: &num::BigRational, b: &num::BigRational) -> (r: num::BigRational)
    requires
        ratio_sound(*a),
        ratio_sound(*b),
    ensures
        ratio_sound(r),
        ratio_value(r) == ratio_value(*a) * ratio_value(*b),
{
    a * b
}

/// `Div::div` of two ratios: their exact quotient. The outside function
/// panics on a zero divisor, which the precondition excludes.
#[verifier::external_body]
pub(crate) fn ratio_div(a: &num::BigRational, b: &num::BigRational) -> (r: num::BigRational)
    requires
        ratio_sound(*a),
        ratio_sound(*b),
        ratio_value(*b) != 0real,
    ensures
        ratio_sound(r),
        ratio_value(r) == ratio_value(*a) / ratio_value(*b),
{
    a / b
}

/// `PartialOrd::lt` of two ratios: whether the first denotes the smaller
/// number.
#[verifier::external_body]
pub(crate) fn ratio_lt(a: &num::BigRational, b: &num::BigRational) -> (r: bool)
    requires
        ratio_sound(*a),
        ratio_sound(*b),
    ensures
        r == (ratio_value(*a) < ratio_value(*b)),
{
    a < b
}

/// `Ratio::trunc`: the integer next to the ratio in the direction of zero.
#[verifier::external_body]
pub(crate) fn ratio_trunc(q: &num::BigRational) -> (r: num::BigRational)
    requires
        ratio_sound(*q),
    ensures
        ratio_sound(r),
        ratio_value(r) == truncate(ratio_value(*q)) as real,
{
    q.trunc()
}

/// `Roots::sqrt` of the integer that a whole, non-negative ratio denotes: the
/// largest integer whose square does not exceed it. The outside function
/// panics on a negative number, which the precondition excludes.
#[verifier::external_body]
pub(crate) fn ratio_sqrt_floor(q: &num::BigRational) -> (r: num::BigRational)
    requires
        ratio_sound(*q),
        ratio_value(*q) >= 0real,
        is_whole(ratio_value(*q)),
    ensures
        ratio_sound(r),
        ratio_value(r) >= 0real,
        is_whole(ratio_value(r)),
        ratio_value(r) * ratio_value(r) <= ratio_value(*q),
        ratio_value(*q) < (ratio_value(r) + 1real) * (ratio_value(r) + 1real),
{
    num::BigRational::from_integer(num::integer::Roots::sqrt(&q.to_integer()))
}

/// `ToPrimitive::to_i64` of a ratio: the ratio rounded towards zero, where
/// that integer is an `i64`.
#[verifier::external_body]
pub(crate) fn ratio_to_i64(q: &num::BigRational) -> (r: Option<i64>)
    requires
        ratio_sound(*q),
    ensures
        r == (if i64::MIN <= truncate(ratio_value(*q)) <= i64::MAX {
            Some(truncate(ratio_value(*q)) as i64)
        } else {
            None
        }),
{
    num::ToPrimitive::to_i64(q)
}

} // verus!
