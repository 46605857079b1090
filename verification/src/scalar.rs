//! Numbers that may be undefined.
//!
//! A [`Scalar`] is an exact rational number or no number at all. Arithmetic
//! never rounds; it yields no number where an operand is none or a divisor
//! is zero, and comparisons that involve no number are indeterminate.
use crate::rational::{
    is_whole, ratio_add, ratio_clone, ratio_div, ratio_is_sound, ratio_lt, ratio_mul, ratio_new,
    ratio_sound, ratio_sqrt_floor, ratio_sub, ratio_to_i64, ratio_trunc, ratio_value, truncate,
    whole_number,
};
use std::cmp::Ordering;
use vstd::prelude::*;

verus! {

/// What a [`Scalar`] denotes: a real number, or `None` where it is undefined.
pub type Value = Option<real>;

/// The sum of two values, defined where both are.
pub open spec fn plus(a: Value, b: Value) -> Value {
    match (a, b) {
        (Some(x), Some(y)) => Some(x + y),
        _ => None,
    }
}

/// The difference of two values, defined where both are.
pub open spec fn minus(a: Value, b: Value) -> Value {
    match (a, b) {
        (Some(x), Some(y)) => Some(x - y),
        _ => None,
    }
}

/// The product of two values, defined where both are.
pub open spec fn times(a: Value, b: Value) -> Value {
    match (a, b) {
        (Some(x), Some(y)) => Some(x * y),
        _ => None,
    }
}

/// The quotient of two values, defined where both are and the divisor is not
/// zero.
pub open spec fn over(a: Value, b: Value) -> Value {
    match (a, b) {
        (Some(x), Some(y)) => if y != 0real {
            Some(x / y)
        } else {
            None
        },
        _ => None,
    }
}

/// How two values compare, determinate where both are defined.
pub open spec fn order(a: Value, b: Value) -> Option<Ordering> {
    match (a, b) {
        (Some(x), Some(y)) => Some(
            if x < y {
                Ordering::Less
            } else if x == y {
                Ordering::Equal
            } else {
                Ordering::Greater
            },
        ),
        _ => None,
    }
}

/// The value of the fraction `numer / denom`, undefined for a zero
/// denominator.
pub open spec fn fraction(numer: int, denom: int) -> Value {
    if denom == 0 {
        None
    } else {
        Some(numer as real / denom as real)
    }
}

/// Whether `r` is the square root of `x` rounded down to a multiple of
/// 1/16777216: the largest such multiple, not negative, whose square does not
/// exceed `x`.
#[verifier::opaque]
pub open spec fn is_grid_root(r: real, x: real) -> bool {
    &&& r >= 0real
    &&& is_whole(r * 16777216real)
    &&& r * r <= x
    &&& x < (r + 1real / 16777216real) * (r + 1real / 16777216real)
}

/// The square root of `x` rounded down to a multiple of 1/16777216.
pub open spec fn grid_root(x: real) -> real {
    choose|r: real| is_grid_root(r, x)
}

/// The rounded square root of a value, defined where the value is defined
/// and not negative.
pub open spec fn root(a: Value) -> Value {
    match a {
        Some(x) => if x >= 0real {
            Some(grid_root(x))
        } else {
            None
        },
        None => None,
    }
}

/// At most one number is the rounded square root of `x`.
pub proof fn lemma_grid_root_unique(r1: real, r2: real, x: real)
    requires
        is_grid_root(r1, x),
        is_grid_root(r2, x),
    ensures
        r1 == r2,
{
    reveal(is_grid_root);
    reveal(is_whole);
    let n1 = choose|n: int| r1 * 16777216real == #[trigger] whole_number(n);
    let n2 = choose|n: int| r2 * 16777216real == #[trigger] whole_number(n);
    if r1 < r2 {
        assert(whole_number(n1) < whole_number(n2));
        assert(n1 + 1 <= n2);
        assert(whole_number(n1) + 1real <= whole_number(n2));
        assert(r1 + 1real / 16777216real <= r2);
        lemma_square_monotone(r1 + 1real / 16777216real, r2);
    } else if r2 < r1 {
        assert(whole_number(n2) < whole_number(n1));
        assert(n2 + 1 <= n1);
        assert(whole_number(n2) + 1real <= whole_number(n1));
        assert(r2 + 1real / 16777216real <= r1);
        lemma_square_monotone(r2 + 1real / 16777216real, r1);
    }
}

proof fn lemma_square_monotone(a: real, b: real)
    by (nonlinear_arith)
    requires
        0real <= a <= b,
    ensures
        a * a <= b * b,
{
}

/// The value rounded towards zero, where it is defined and the integer lies
/// between `low` and `high`.
pub open spec fn whole(a: Value, low: int, high: int) -> Option<int> {
    match a {
        Some(x) => if low <= truncate(x) <= high {
            Some(truncate(x))
        } else {
            None
        },
        None => None,
    }
}

/// An exact rational number, or no number.
#[derive(Debug)]
pub struct Scalar {
    q: Option<num::BigRational>,
}

impl View for Scalar {
    type V = Value;

    closed spec fn view(&self) -> Value {
        match self.q {
            Some(q) => Some(ratio_value(q)),
            None => None,
        }
    }
}

impl Scalar {
    /// The ratio that is held, if any, is well formed.
    #[verifier::type_invariant]
    spec fn holds_a_sound_ratio(&self) -> bool {
        self.q is Some ==> ratio_sound(self.q->0)
    }

    /// The fraction `numer / denom`; no number where `denom` is zero.
    pub fn new(numer: i64, denom: i64) -> (r: Scalar)
        ensures
            r@ == fraction(numer as int, denom as int),
    {
        if denom == 0 {
            Scalar { q: None }
        } else {
            Scalar { q: Some(ratio_new(numer, denom)) }
        }
    }

    /// The integer `n`.
    pub fn from_int(n: i64) -> (r: Scalar)
        ensures
            r@ == Some(n as real),
    {
        Scalar { q: Some(ratio_new(n, 1)) }
    }

    /// No number.
    pub fn undefined() -> (r: Scalar)
        ensures
            r@ is None,
    {
        Scalar { q: None }
    }

    /// The number that `q` denotes; no number where `q` is not well formed.
    pub fn from_ratio(q: num::BigRational) -> (r: Scalar)
        ensures
            r@ == if ratio_sound(q) {
                Some(ratio_value(q))
            } else {
                None
            },
    {
        if ratio_is_sound(&q) {
            Scalar { q: Some(q) }
        } else {
            Scalar { q: None }
        }
    }

    /// The number as a well-formed ratio, where there is one.
    pub fn to_ratio(&self) -> (r: Option<num::BigRational>)
        ensures
            match r {
                Some(q) => ratio_sound(q) && self@ == Some(ratio_value(q)),
                None => self@ is None,
            },
    {
        proof {
            use_type_invariant(self);
        }
        match &self.q {
            Some(q) => Some(ratio_clone(q)),
            None => None,
        }
    }

    /// Whether this is no number.
    pub fn is_irregular(&self) -> (r: bool)
        ensures
            r == (self@ is None),
    {
        self.q.is_none()
    }

    /// The number rounded towards zero, where that is a `u32`.
    pub fn to_u32(&self) -> (r: Option<u32>)
        ensures
            r is Some <==> whole(self@, 0, u32::MAX as int) is Some,
            r is Some ==> whole(self@, 0, u32::MAX as int) == Some(r->0 as int),
    {
        match self.to_i64() {
            Some(n) => if 0 <= n && n <= u32::MAX as i64 {
                Some(n as u32)
            } else {
                None
            },
            None => None,
        }
    }

    /// The number rounded towards zero, where that is an `i64`.
    pub fn to_i64(&self) -> (r: Option<i64>)
        ensures
            r is Some <==> whole(self@, i64::MIN as int, i64::MAX as int) is Some,
            r is Some ==> whole(self@, i64::MIN as int, i64::MAX as int) == Some(r->0 as int),
    {
        proof {
            use_type_invariant(self);
        }
        match &self.q {
            Some(q) => ratio_to_i64(q),
            None => None,
        }
    }

    /// The sum `self + rhs`.
    pub fn plus(&self, rhs: &Scalar) -> (r: Scalar)
        ensures
            r@ == plus(self@, rhs@),
    {
        proof {
            use_type_invariant(self);
            use_type_invariant(rhs);
        }
        match (&self.q, &rhs.q) {
            (Some(a), Some(b)) => Scalar { q: Some(ratio_add(a, b)) },
            _ => Scalar { q: None },
        }
    }

    /// The difference `self - rhs`.
    pub fn minus(&self, rhs: &Scalar) -> (r: Scalar)
        ensures
            r@ == minus(self@, rhs@),
    {
        proof {
            use_type_invariant(self);
            use_type_invariant(rhs);
        }
        match (&self.q, &rhs.q) {
            (Some(a), Some(b)) => Scalar { q: Some(ratio_sub(a, b)) },
            _ => Scalar { q: None },
        }
    }

    /// The product `self * rhs`.
    pub fn times(&self, rhs: &Scalar) -> (r: Scalar)
        ensures
            r@ == times(self@, rhs@),
    {
        proof {
            use_type_invariant(self);
            use_type_invariant(rhs);
        }
        match (&self.q, &rhs.q) {
            (Some(a), Some(b)) => Scalar { q: Some(ratio_mul(a, b)) },
            _ => Scalar { q: None },
        }
    }

    /// The quotient `self / rhs`; no number where `rhs` is zero.
    pub fn over(&self, rhs: &Scalar) -> (r: Scalar)
        ensures
            r@ == over(self@, rhs@),
    {
        proof {
            use_type_invariant(self);
            use_type_invariant(rhs);
        }
        match (&self.q, &rhs.q) {
            (Some(a), Some(b)) => {
                let zero = ratio_new(0, 1);
                if ratio_lt(b, &zero) || ratio_lt(&zero, b) {
                    Scalar { q: Some(ratio_div(a, b)) }
                } else {
                    Scalar { q: None }
                }
            },
            _ => Scalar { q: None },
        }
    }

    /// The square root rounded down to a multiple of 1/16777216; no number for
    /// a negative number.
    pub fn sqrt(&self) -> (r: Scalar)
        ensures
            r@ == root(self@),
            r@ is Some ==> is_grid_root(r@->0, self@->0),
    {
        proof {
            use_type_invariant(self);
        }
        match &self.q {
            Some(q) => {
                let zero = ratio_new(0, 1);
                if ratio_lt(q, &zero) {
                    Scalar { q: None }
                } else {
                    let found = rounded_root(q);
                    proof {
                        lemma_grid_root_unique(
                            ratio_value(found),
                            grid_root(ratio_value(*q)),
                            ratio_value(*q),
                        );
                    }
                    Scalar { q: Some(found) }
                }
            },
            None => Scalar { q: None },
        }
    }
}

/// The square root of a ratio that is not negative, rounded down to a
/// multiple of 1/16777216.
fn rounded_root(q: &num::BigRational) -> (found: num::BigRational)
    requires
        ratio_sound(*q),
        ratio_value(*q) >= 0real,
    ensures
        ratio_sound(found),
        is_grid_root(ratio_value(found), ratio_value(*q)),
{
    let grid = ratio_new(16777216, 1);
    let once = ratio_mul(q, &grid);
    let scaled = ratio_mul(&once, &grid);
    let counted = ratio_trunc(&scaled);
    proof {
        lemma_counted(
            ratio_value(*q),
            ratio_value(grid),
            ratio_value(once),
            ratio_value(scaled),
        );
    }
    let units = ratio_sqrt_floor(&counted);
    let found = ratio_div(&units, &grid);
    proof {
        lemma_root_from_units(
            ratio_value(*q),
            ratio_value(counted),
            ratio_value(units),
            ratio_value(found),
        );
    }
    found
}

/// A number rounded down is a whole number.
proof fn lemma_floor_is_whole(v: real)
    ensures
        is_whole(v.floor() as real),
{
    reveal(is_whole);
    assert(v.floor() as real == whole_number(v.floor()));
}

/// A number that is not negative, counted in units of 1/16777216 squared
/// and rounded towards zero, is a whole number that is not negative.
proof fn lemma_counted(x: real, grid: real, once: real, scaled: real)
    requires
        x >= 0real,
        grid == 16777216 as real / 1 as real,
        once == x * grid,
        scaled == once * grid,
    ensures
        grid == 16777216real,
        scaled == x * 16777216real * 16777216real,
        truncate(scaled) as real >= 0real,
        is_whole(truncate(scaled) as real),
{
    assert(grid == 16777216real);
    assert(once == x * 16777216real);
    assert(scaled == x * 16777216real * 16777216real);
    assert(scaled >= 0real);
    assert(truncate(scaled) == scaled.floor());
    assert(scaled.floor() >= 0);
    lemma_floor_is_whole(scaled);
}

/// From the integer square root of `x` counted in units of 1/16777216 squared
/// to the rounded square root of `x`.
proof fn lemma_root_from_units(x: real, counted: real, units: real, found: real)
    requires
        x >= 0real,
        counted == truncate(x * 16777216real * 16777216real) as real,
        units >= 0real,
        is_whole(units),
        units * units <= counted,
        counted < (units + 1real) * (units + 1real),
        found == units / 16777216real,
    ensures
        is_grid_root(found, x),
{
    reveal(is_grid_root);
    reveal(is_whole);
    let scaled = x * 16777216real * 16777216real;
    assert(scaled >= 0real) by (nonlinear_arith)
        requires
            x >= 0real,
            scaled == x * 16777216real * 16777216real,
    ;
    let w = scaled.floor();
    let n = choose|n: int| units == #[trigger] whole_number(n);
    assert(counted == w as real);
    assert(found * 16777216real == units);
    assert(found * 16777216real == whole_number(n));
    assert(found * found * (16777216real * 16777216real) == units * units) by (nonlinear_arith)
        requires
            found * 16777216real == units,
    ;
    assert(found * found <= x);
    let next = found + 1real / 16777216real;
    assert(next * 16777216real == units + 1real);
    assert(next * next * (16777216real * 16777216real) == (units + 1real) * (units + 1real))
        by (nonlinear_arith)
        requires
            next * 16777216real == units + 1real,
    ;
    assert(((n + 1) * (n + 1)) as real == (units + 1real) * (units + 1real)) by (nonlinear_arith)
        requires
            units == n as real,
    ;
    assert(w < (n + 1) * (n + 1));
    assert(w + 1 <= (n + 1) * (n + 1));
    assert(scaled < (w + 1) as real);
    assert(x < next * next);
}

impl Clone for Scalar {
    fn clone(&self) -> (r: Scalar)
        ensures
            r@ == self@,
    {
        proof {
            use_type_invariant(self);
        }
        match &self.q {
            Some(q) => Scalar { q: Some(ratio_clone(q)) },
            None => Scalar { q: None },
        }
    }
}

impl PartialEq for Scalar {
    fn eq(&self, other: &Scalar) -> (r: bool) {
        proof {
            use_type_invariant(self);
            use_type_invariant(other);
        }
        match (&self.q, &other.q) {
            (Some(a), Some(b)) => !ratio_lt(a, b) && !ratio_lt(b, a),
            _ => false,
        }
    }
}

impl vstd::std_specs::cmp::PartialEqSpecImpl for Scalar {
    open spec fn obeys_eq_spec() -> bool {
        true
    }

    open spec fn eq_spec(&self, other: &Scalar) -> bool {
        order(self@, other@) == Some(Ordering::Equal)
    }
}

impl PartialOrd for Scalar {
    fn partial_cmp(&self, other: &Scalar) -> (r: Option<Ordering>) {
        proof {
            use_type_invariant(self);
            use_type_invariant(other);
        }
        match (&self.q, &other.q) {
            (Some(a), Some(b)) => {
                if ratio_lt(a, b) {
                    Some(Ordering::Less)
                } else if ratio_lt(b, a) {
                    Some(Ordering::Greater)
                } else {
                    Some(Ordering::Equal)
                }
            },
            _ => None,
        }
    }
}

impl vstd::std_specs::cmp::PartialOrdSpecImpl for Scalar {
    open spec fn obeys_partial_cmp_spec() -> bool {
        true
    }

    open spec fn partial_cmp_spec(&self, other: &Scalar) -> Option<Ordering> {
        order(self@, other@)
    }
}

} // verus!
