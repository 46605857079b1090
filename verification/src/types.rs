//! Points, rectangles and the quadrilateral of four control points.
//!
//! The data types are generic in their coordinate. The geometry is given for
//! coordinates of type [`Scalar`] and is specified over the values that the
//! coordinates denote: a `Point<Scalar>` is seen as a `Point<Value>`, each of
//! whose coordinates is a real number or undefined.
use crate::scalar::{minus, order, over, plus, times, Scalar, Value};
use std::cmp::Ordering;
use vstd::std_specs::cmp::PartialOrdSpec;
use vstd::prelude::*;

verus! {

/// A point of the plane.
#[derive(Debug)]
pub struct Point<T> {
    pub x: T,
    pub y: T,
}

/// An axis-parallel rectangle: a corner and the extent from it.
#[derive(Debug)]
pub struct Rectangle<T> {
    pub x: T,
    pub y: T,
    pub w: T,
    pub h: T,
}

/// A quadrilateral given by the left corner `p1`, the top `p2`, the right
/// corner `p3` and the bottom `p4` of a mouth.
#[derive(Debug)]
pub struct ControlPoints<T> {
    pub p1: Point<T>,
    pub p2: Point<T>,
    pub p3: Point<T>,
    pub p4: Point<T>,
}

impl<T: View> View for Point<T> {
    type V = Point<T::V>;

    open spec fn view(&self) -> Point<T::V> {
        Point { x: self.x@, y: self.y@ }
    }
}

impl<T: View> View for Rectangle<T> {
    type V = Rectangle<T::V>;

    open spec fn view(&self) -> Rectangle<T::V> {
        Rectangle { x: self.x@, y: self.y@, w: self.w@, h: self.h@ }
    }
}

impl<T: View> View for ControlPoints<T> {
    type V = ControlPoints<T::V>;

    open spec fn view(&self) -> ControlPoints<T::V> {
        ControlPoints { p1: self.p1@, p2: self.p2@, p3: self.p3@, p4: self.p4@ }
    }
}

impl<T: Clone> Clone for Point<T> {
    fn clone(&self) -> (r: Point<T>)
        ensures
            cloned(self.x, r.x),
            cloned(self.y, r.y),
    {
        Point { x: self.x.clone(), y: self.y.clone() }
    }
}

impl<T: Clone> Clone for Rectangle<T> {
    fn clone(&self) -> (r: Rectangle<T>)
        ensures
            cloned(self.x, r.x),
            cloned(self.y, r.y),
            cloned(self.w, r.w),
            cloned(self.h, r.h),
    {
        Rectangle { x: self.x.clone(), y: self.y.clone(), w: self.w.clone(), h: self.h.clone() }
    }
}

impl<T: Clone> Clone for ControlPoints<T> {
    fn clone(&self) -> (r: ControlPoints<T>)
        ensures
            cloned(self.p1.x, r.p1.x),
            cloned(self.p1.y, r.p1.y),
            cloned(self.p2.x, r.p2.x),
            cloned(self.p2.y, r.p2.y),
            cloned(self.p3.x, r.p3.x),
            cloned(self.p3.y, r.p3.y),
            cloned(self.p4.x, r.p4.x),
            cloned(self.p4.y, r.p4.y),
    {
        ControlPoints {
            p1: self.p1.clone(),
            p2: self.p2.clone(),
            p3: self.p3.clone(),
            p4: self.p4.clone(),
        }
    }
}

impl<T> Point<T> {
    pub fn new(x: T, y: T) -> (r: Point<T>)
        ensures
            r.x == x,
            r.y == y,
    {
        Point { x, y }
    }
}

impl<T> Rectangle<T> {
    pub fn new(x: T, y: T, w: T, h: T) -> (r: Rectangle<T>)
        ensures
            r.x == x,
            r.y == y,
            r.w == w,
            r.h == h,
    {
        Rectangle { x, y, w, h }
    }
}

impl<T> ControlPoints<T> {
    pub fn new(p1: Point<T>, p2: Point<T>, p3: Point<T>, p4: Point<T>) -> (r: ControlPoints<T>)
        ensures
            r.p1 == p1,
            r.p2 == p2,
            r.p3 == p3,
            r.p4 == p4,
    {
        ControlPoints { p1, p2, p3, p4 }
    }
}

/// The point whose coordinates are both undefined.
pub open spec fn nowhere() -> Point<Value> {
    Point { x: None, y: None }
}

/// The point `p`, with both coordinates defined.
pub open spec fn at(p: Point<real>) -> Point<Value> {
    Point { x: Some(p.x), y: Some(p.y) }
}

/// Whether both coordinates of `p` are defined.
pub open spec fn point_defined(p: Point<Value>) -> bool {
    p.x is Some && p.y is Some
}

/// The coordinates of a defined point.
pub open spec fn point_known(p: Point<Value>) -> Point<real> {
    Point { x: p.x->0, y: p.y->0 }
}

/// The sum of two points, coordinate by coordinate.
pub open spec fn point_plus(a: Point<Value>, b: Point<Value>) -> Point<Value> {
    Point { x: plus(a.x, b.x), y: plus(a.y, b.y) }
}

/// The difference of two points, coordinate by coordinate.
pub open spec fn point_minus(a: Point<Value>, b: Point<Value>) -> Point<Value> {
    Point { x: minus(a.x, b.x), y: minus(a.y, b.y) }
}

/// The point `a` with both coordinates multiplied by `k`.
pub open spec fn point_times(a: Point<Value>, k: Value) -> Point<Value> {
    Point { x: times(a.x, k), y: times(a.y, k) }
}

/// The point `a` with both coordinates divided by `k`.
pub open spec fn point_over(a: Point<Value>, k: Value) -> Point<Value> {
    Point { x: over(a.x, k), y: over(a.y, k) }
}

/// Whether all eight coordinates of `q` are defined.
pub open spec fn quad_defined(q: ControlPoints<Value>) -> bool {
    point_defined(q.p1) && point_defined(q.p2) && point_defined(q.p3) && point_defined(q.p4)
}

/// The coordinates of a defined quadrilateral.
pub open spec fn quad_known(q: ControlPoints<Value>) -> ControlPoints<real> {
    ControlPoints {
        p1: point_known(q.p1),
        p2: point_known(q.p2),
        p3: point_known(q.p3),
        p4: point_known(q.p4),
    }
}

/// The quadrilateral `q`, with all coordinates defined.
pub open spec fn quad_at(q: ControlPoints<real>) -> ControlPoints<Value> {
    ControlPoints { p1: at(q.p1), p2: at(q.p2), p3: at(q.p3), p4: at(q.p4) }
}

/// The sum of two quadrilaterals, corner by corner.
pub open spec fn quad_plus(a: ControlPoints<Value>, b: ControlPoints<Value>) -> ControlPoints<
    Value,
> {
    ControlPoints {
        p1: point_plus(a.p1, b.p1),
        p2: point_plus(a.p2, b.p2),
        p3: point_plus(a.p3, b.p3),
        p4: point_plus(a.p4, b.p4),
    }
}

/// The difference of two quadrilaterals, corner by corner.
pub open spec fn quad_minus(a: ControlPoints<Value>, b: ControlPoints<Value>) -> ControlPoints<
    Value,
> {
    ControlPoints {
        p1: point_minus(a.p1, b.p1),
        p2: point_minus(a.p2, b.p2),
        p3: point_minus(a.p3, b.p3),
        p4: point_minus(a.p4, b.p4),
    }
}

/// The quadrilateral `a` moved by `d`.
pub open spec fn quad_moved(a: ControlPoints<Value>, d: Point<Value>) -> ControlPoints<Value> {
    ControlPoints {
        p1: point_plus(a.p1, d),
        p2: point_plus(a.p2, d),
        p3: point_plus(a.p3, d),
        p4: point_plus(a.p4, d),
    }
}

/// The quadrilateral `a` moved back by `d`.
pub open spec fn quad_moved_back(a: ControlPoints<Value>, d: Point<Value>) -> ControlPoints<
    Value,
> {
    ControlPoints {
        p1: point_minus(a.p1, d),
        p2: point_minus(a.p2, d),
        p3: point_minus(a.p3, d),
        p4: point_minus(a.p4, d),
    }
}

/// The quadrilateral `a` with every coordinate multiplied by `k`.
pub open spec fn quad_times(a: ControlPoints<Value>, k: Value) -> ControlPoints<Value> {
    ControlPoints {
        p1: point_times(a.p1, k),
        p2: point_times(a.p2, k),
        p3: point_times(a.p3, k),
        p4: point_times(a.p4, k),
    }
}

/// The quadrilateral `a` with every coordinate divided by `k`.
pub open spec fn quad_over(a: ControlPoints<Value>, k: Value) -> ControlPoints<Value> {
    ControlPoints {
        p1: point_over(a.p1, k),
        p2: point_over(a.p2, k),
        p3: point_over(a.p3, k),
        p4: point_over(a.p4, k),
    }
}

impl Point<Scalar> {
    /// Whether a coordinate is undefined.
    pub fn is_irregular(&self) -> (r: bool)
        ensures
            r == !point_defined(self@),
    {
        self.x.is_irregular() || self.y.is_irregular()
    }
}

impl core::ops::Add for Point<Scalar> {
    type Output = Point<Scalar>;

    fn add(self, rhs: Point<Scalar>) -> (r: Point<Scalar>)
        ensures
            r@ == point_plus(self@, rhs@),
    {
        Point { x: self.x.plus(&rhs.x), y: self.y.plus(&rhs.y) }
    }
}

impl vstd::std_specs::ops::AddSpecImpl for Point<Scalar> {
    open spec fn obeys_add_spec() -> bool {
        false
    }

    open spec fn add_req(self, rhs: Point<Scalar>) -> bool {
        true
    }

    open spec fn add_spec(self, rhs: Point<Scalar>) -> Point<Scalar> {
        arbitrary()
    }
}

impl core::ops::Sub for Point<Scalar> {
    type Output = Point<Scalar>;

    fn sub(self, rhs: Point<Scalar>) -> (r: Point<Scalar>)
        ensures
            r@ == point_minus(self@, rhs@),
    {
        Point { x: self.x.minus(&rhs.x), y: self.y.minus(&rhs.y) }
    }
}

impl vstd::std_specs::ops::SubSpecImpl for Point<Scalar> {
    open spec fn obeys_sub_spec() -> bool {
        false
    }

    open spec fn sub_req(self, rhs: Point<Scalar>) -> bool {
        true
    }

    open spec fn sub_spec(self, rhs: Point<Scalar>) -> Point<Scalar> {
        arbitrary()
    }
}

impl core::ops::Mul<Scalar> for Point<Scalar> {
    type Output = Point<Scalar>;

    fn mul(self, rhs: Scalar) -> (r: Point<Scalar>)
        ensures
            r@ == point_times(self@, rhs@),
    {
        Point { x: self.x.times(&rhs), y: self.y.times(&rhs) }
    }
}

impl vstd::std_specs::ops::MulSpecImpl<Scalar> for Point<Scalar> {
    open spec fn obeys_mul_spec() -> bool {
        false
    }

    open spec fn mul_req(self, rhs: Scalar) -> bool {
        true
    }

    open spec fn mul_spec(self, rhs: Scalar) -> Point<Scalar> {
        arbitrary()
    }
}

impl core::ops::Div<Scalar> for Point<Scalar> {
    type Output = Point<Scalar>;

    fn div(self, rhs: Scalar) -> (r: Point<Scalar>)
        ensures
            r@ == point_over(self@, rhs@),
    {
        Point { x: self.x.over(&rhs), y: self.y.over(&rhs) }
    }
}

impl vstd::std_specs::ops::DivSpecImpl<Scalar> for Point<Scalar> {
    open spec fn obeys_div_spec() -> bool {
        false
    }

    open spec fn div_req(self, rhs: Scalar) -> bool {
        true
    }

    open spec fn div_spec(self, rhs: Scalar) -> Point<Scalar> {
        arbitrary()
    }
}

impl Rectangle<Scalar> {
    /// Whether a coordinate or an extent is undefined.
    pub fn is_irregular(&self) -> (r: bool)
        ensures
            r == (self.x@ is None || self.y@ is None || self.w@ is None || self.h@ is None),
    {
        self.x.is_irregular() || self.y.is_irregular() || self.w.is_irregular()
            || self.h.is_irregular()
    }
}

impl core::ops::Add<Point<Scalar>> for ControlPoints<Scalar> {
    type Output = ControlPoints<Scalar>;

    fn add(self, rhs: Point<Scalar>) -> (r: ControlPoints<Scalar>)
        ensures
            r@ == quad_moved(self@, rhs@),
    {
        ControlPoints {
            p1: self.p1 + rhs.clone(),
            p2: self.p2 + rhs.clone(),
            p3: self.p3 + rhs.clone(),
            p4: self.p4 + rhs,
        }
    }
}

impl vstd::std_specs::ops::AddSpecImpl<Point<Scalar>> for ControlPoints<Scalar> {
    open spec fn obeys_add_spec() -> bool {
        false
    }

    open spec fn add_req(self, rhs: Point<Scalar>) -> bool {
        true
    }

    open spec fn add_spec(self, rhs: Point<Scalar>) -> ControlPoints<Scalar> {
        arbitrary()
    }
}

impl core::ops::Sub<Point<Scalar>> for ControlPoints<Scalar> {
    type Output = ControlPoints<Scalar>;

    fn sub(self, rhs: Point<Scalar>) -> (r: ControlPoints<Scalar>)
        ensures
            r@ == quad_moved_back(self@, rhs@),
    {
        ControlPoints {
            p1: self.p1 - rhs.clone(),
            p2: self.p2 - rhs.clone(),
            p3: self.p3 - rhs.clone(),
            p4: self.p4 - rhs,
        }
    }
}

impl vstd::std_specs::ops::SubSpecImpl<Point<Scalar>> for ControlPoints<Scalar> {
    open spec fn obeys_sub_spec() -> bool {
        false
    }

    open spec fn sub_req(self, rhs: Point<Scalar>) -> bool {
        true
    }

    open spec fn sub_spec(self, rhs: Point<Scalar>) -> ControlPoints<Scalar> {
        arbitrary()
    }
}

impl core::ops::Mul<Scalar> for ControlPoints<Scalar> {
    type Output = ControlPoints<Scalar>;

    fn mul(self, rhs: Scalar) -> (r: ControlPoints<Scalar>)
        ensures
            r@ == quad_times(self@, rhs@),
    {
        ControlPoints {
            p1: self.p1 * rhs.clone(),
            p2: self.p2 * rhs.clone(),
            p3: self.p3 * rhs.clone(),
            p4: self.p4 * rhs,
        }
    }
}

impl vstd::std_specs::ops::MulSpecImpl<Scalar> for ControlPoints<Scalar> {
    open spec fn obeys_mul_spec() -> bool {
        false
    }

    open spec fn mul_req(self, rhs: Scalar) -> bool {
        true
    }

    open spec fn mul_spec(self, rhs: Scalar) -> ControlPoints<Scalar> {
        arbitrary()
    }
}

impl core::ops::Div<Scalar> for ControlPoints<Scalar> {
    type Output = ControlPoints<Scalar>;

    fn div(self, rhs: Scalar) -> (r: ControlPoints<Scalar>)
        ensures
            r@ == quad_over(self@, rhs@),
    {
        ControlPoints {
            p1: self.p1 / rhs.clone(),
            p2: self.p2 / rhs.clone(),
            p3: self.p3 / rhs.clone(),
            p4: self.p4 / rhs,
        }
    }
}

impl vstd::std_specs::ops::DivSpecImpl<Scalar> for ControlPoints<Scalar> {
    open spec fn obeys_div_spec() -> bool {
        false
    }

    open spec fn div_req(self, rhs: Scalar) -> bool {
        true
    }

    open spec fn div_spec(self, rhs: Scalar) -> ControlPoints<Scalar> {
        arbitrary()
    }
}

impl core::ops::Add for ControlPoints<Scalar> {
    type Output = ControlPoints<Scalar>;

    fn add(self, rhs: ControlPoints<Scalar>) -> (r: ControlPoints<Scalar>)
        ensures
            r@ == quad_plus(self@, rhs@),
    {
        ControlPoints {
            p1: self.p1 + rhs.p1,
            p2: self.p2 + rhs.p2,
            p3: self.p3 + rhs.p3,
            p4: self.p4 + rhs.p4,
        }
    }
}

impl vstd::std_specs::ops::AddSpecImpl for ControlPoints<Scalar> {
    open spec fn obeys_add_spec() -> bool {
        false
    }

    open spec fn add_req(self, rhs: ControlPoints<Scalar>) -> bool {
        true
    }

    open spec fn add_spec(self, rhs: ControlPoints<Scalar>) -> ControlPoints<Scalar> {
        arbitrary()
    }
}

impl core::ops::Sub for ControlPoints<Scalar> {
    type Output = ControlPoints<Scalar>;

    fn sub(self, rhs: ControlPoints<Scalar>) -> (r: ControlPoints<Scalar>)
        ensures
            r@ == quad_minus(self@, rhs@),
    {
        ControlPoints {
            p1: self.p1 - rhs.p1,
            p2: self.p2 - rhs.p2,
            p3: self.p3 - rhs.p3,
            p4: self.p4 - rhs.p4,
        }
    }
}

impl vstd::std_specs::ops::SubSpecImpl for ControlPoints<Scalar> {
    open spec fn obeys_sub_spec() -> bool {
        false
    }

    open spec fn sub_req(self, rhs: ControlPoints<Scalar>) -> bool {
        true
    }

    open spec fn sub_spec(self, rhs: ControlPoints<Scalar>) -> ControlPoints<Scalar> {
        arbitrary()
    }
}

/// The determinant of the directions of the two diagonals `p1`-`p3` and
/// `p2`-`p4`. It is zero where the diagonals are parallel or one of them has
/// no length.
pub open spec fn diagonal_det(q: ControlPoints<real>) -> real {
    (q.p2.x - q.p4.x) * (q.p1.y - q.p3.y) - (q.p1.x - q.p3.x) * (q.p2.y - q.p4.y)
}

/// The point in which the lines through the two diagonals meet, by the
/// two-line formula. It means nothing where [`diagonal_det`] is zero.
pub open spec fn intersection(q: ControlPoints<real>) -> Point<real> {
    Point {
        x: ((q.p2.x - q.p4.x) * (q.p3.x * q.p1.y - q.p1.x * q.p3.y) - (q.p1.x - q.p3.x) * (q.p4.x
            * q.p2.y - q.p2.x * q.p4.y)) / diagonal_det(q),
        y: ((q.p2.y - q.p4.y) * (q.p3.y * q.p1.x - q.p1.y * q.p3.x) - (q.p1.y - q.p3.y) * (q.p4.y
            * q.p2.x - q.p2.y * q.p4.x)) / (-diagonal_det(q)),
    }
}

/// Where the diagonals of `q` cross: nowhere if a coordinate of `q` is
/// undefined or the diagonals do not meet in one point.
pub open spec fn cross_of(q: ControlPoints<Value>) -> Point<Value> {
    if quad_defined(q) && diagonal_det(quad_known(q)) != 0real {
        at(intersection(quad_known(q)))
    } else {
        nowhere()
    }
}

/// The middle of `q`: half way between the corners horizontally and half way
/// between top and bottom vertically.
pub open spec fn center_of(q: ControlPoints<Value>) -> Point<Value> {
    Point {
        x: over(plus(q.p1.x, q.p3.x), Some(2real)),
        y: over(plus(q.p2.y, q.p4.y), Some(2real)),
    }
}

/// The point from which [`enlarged`] scales: the middle or the crossing.
pub open spec fn origin_of(q: ControlPoints<Value>, use_center: bool) -> Point<Value> {
    if use_center {
        center_of(q)
    } else {
        cross_of(q)
    }
}

/// The quadrilateral `q` scaled by `1 + scale` away from its origin: every
/// corner `p` becomes `p + p * scale - origin * scale`.
pub open spec fn enlarged(q: ControlPoints<Value>, scale: Value, use_center: bool) -> ControlPoints<
    Value,
> {
    quad_moved_back(
        quad_plus(q, quad_times(q, scale)),
        point_times(origin_of(q, use_center), scale),
    )
}

/// The quadrilateral `q` with its two corners moved by the offset from the
/// crossing to the middle; top and bottom stay.
pub open spec fn centralized(q: ControlPoints<Value>) -> ControlPoints<Value> {
    let offset = point_minus(center_of(q), cross_of(q));
    ControlPoints {
        p1: point_plus(offset, q.p1),
        p2: q.p2,
        p3: point_plus(offset, q.p3),
        p4: q.p4,
    }
}

/// Whether `q` counts as convex: its crossing lies below the top or above
/// the bottom (`y` grows downwards). Indeterminate where there is no
/// crossing.
pub open spec fn convexity(q: ControlPoints<Value>) -> Option<bool> {
    match cross_of(q).y {
        Some(y0) => Some(y0 > q.p2.y->0 || y0 < q.p4.y->0),
        None => None,
    }
}

/// The smaller of two numbers.
pub open spec fn smaller(a: real, b: real) -> real {
    if a < b {
        a
    } else {
        b
    }
}

/// The larger of two numbers.
pub open spec fn larger(a: real, b: real) -> real {
    if a > b {
        a
    } else {
        b
    }
}

/// The corners of the box drawn around `q` with crossing `c`: the box that
/// holds the four points `corner + (top or bottom) - c`, widened by 4 on
/// every side. First its top left corner, then its bottom right one.
pub open spec fn bounds_of(q: ControlPoints<real>, c: Point<real>) -> (Point<real>, Point<real>) {
    (
        Point {
            x: smaller(q.p1.x - c.x + q.p2.x, q.p1.x - c.x + q.p4.x) - 4real,
            y: smaller(q.p1.y - c.y + q.p2.y, q.p3.y - c.y + q.p2.y) - 4real,
        },
        Point {
            x: larger(q.p3.x - c.x + q.p2.x, q.p3.x - c.x + q.p4.x) + 4real,
            y: larger(q.p1.y - c.y + q.p4.y, q.p3.y - c.y + q.p4.y) + 4real,
        },
    )
}

/// The canvas of `q`: the two corners of its box, and `q` as seen from the
/// box's top left corner. There is none where `q` has no crossing.
pub open spec fn framed(q: ControlPoints<Value>) -> Option<
    (Point<Value>, Point<Value>, ControlPoints<Value>),
> {
    if point_defined(cross_of(q)) {
        let (lt, rb) = bounds_of(quad_known(q), point_known(cross_of(q)));
        Some((at(lt), at(rb), quad_moved_back(q, at(lt))))
    } else {
        None
    }
}

/// How far apart two numbers are.
pub open spec fn gap(a: real, b: real) -> real {
    if a < b {
        b - a
    } else {
        a - b
    }
}

/// How far apart two values are, defined where both are.
pub open spec fn distance(a: Value, b: Value) -> Value {
    match (a, b) {
        (Some(x), Some(y)) => Some(gap(x, y)),
        _ => None,
    }
}

/// The quadrilateral that joins the middles of the sides of `r`: left, top,
/// right, bottom.
pub open spec fn rectangle_quad(r: Rectangle<Value>) -> ControlPoints<Value> {
    let half_w = over(r.w, Some(2real));
    let half_h = over(r.h, Some(2real));
    ControlPoints {
        p1: Point { x: r.x, y: plus(r.y, half_h) },
        p2: Point { x: plus(r.x, half_w), y: r.y },
        p3: Point { x: plus(r.x, r.w), y: plus(r.y, half_h) },
        p4: Point { x: plus(r.x, half_w), y: plus(r.y, r.h) },
    }
}

/// `n - m` where `m` is less than `n`, else `m - n`; nothing where the two
/// do not compare.
pub fn user_abs_minus(m: Scalar, n: Scalar) -> (r: Option<Scalar>)
    ensures
        match r {
            Some(d) => distance(m@, n@) is Some && d@ == distance(m@, n@),
            None => distance(m@, n@) is None,
        },
{
    match m.partial_cmp(&n) {
        Some(Ordering::Less) => Some(n.minus(&m)),
        Some(_) => Some(m.minus(&n)),
        None => None,
    }
}

/// `m` where `m` is less than `n`, else `n`; nothing where the two do not
/// compare.
pub fn poset_min<T: PartialOrd>(m: T, n: T) -> (r: Option<T>)
    ensures
        T::obeys_partial_cmp_spec() ==> r == match m.partial_cmp_spec(&n) {
            Some(Ordering::Less) => Some(m),
            Some(_) => Some(n),
            None => None,
        },
{
    match m.partial_cmp(&n) {
        Some(Ordering::Less) => Some(m),
        Some(_) => Some(n),
        None => None,
    }
}

/// `m` where `m` is greater than `n`, else `n`; nothing where the two do not
/// compare.
pub fn poset_max<T: PartialOrd>(m: T, n: T) -> (r: Option<T>)
    ensures
        T::obeys_partial_cmp_spec() ==> r == match m.partial_cmp_spec(&n) {
            Some(Ordering::Greater) => Some(m),
            Some(_) => Some(n),
            None => None,
        },
{
    match m.partial_cmp(&n) {
        Some(Ordering::Greater) => Some(m),
        Some(_) => Some(n),
        None => None,
    }
}

impl ControlPoints<Scalar> {
    /// Whether a coordinate of a corner is undefined.
    pub fn is_irregular(&self) -> (r: bool)
        ensures
            r == !quad_defined(self@),
    {
        self.p1.is_irregular() || self.p2.is_irregular() || self.p3.is_irregular()
            || self.p4.is_irregular()
    }

    /// The point in which the diagonals `p1`-`p3` and `p2`-`p4` cross.
    pub fn cross(&self) -> (r: Point<Scalar>)
        ensures
            r@ == cross_of(self@),
    {
        let (x1, y1) = (&self.p1.x, &self.p1.y);
        let (x3, y3) = (&self.p2.x, &self.p2.y);
        let (x2, y2) = (&self.p3.x, &self.p3.y);
        let (x4, y4) = (&self.p4.x, &self.p4.y);
        let x1_2 = x1.minus(x2);
        let x3_4 = x3.minus(x4);
        let y1_2 = y1.minus(y2);
        let y3_4 = y3.minus(y4);
        let x_numer = x3_4.times(&x2.times(y1).minus(&x1.times(y2))).minus(
            &x1_2.times(&x4.times(y3).minus(&x3.times(y4))),
        );
        let x_denom = x3_4.times(&y1_2).minus(&x1_2.times(&y3_4));
        let y_numer = y3_4.times(&y2.times(x1).minus(&y1.times(x2))).minus(
            &y1_2.times(&y4.times(x3).minus(&y3.times(x4))),
        );
        let y_denom = y3_4.times(&x1_2).minus(&y1_2.times(&x3_4));
        proof {
            if quad_defined(self@) {
                lemma_det_mirrored(quad_known(self@));
            }
        }
        Point::new(x_numer.over(&x_denom), y_numer.over(&y_denom))
    }

    /// The middle: the mean of the corners' `x` and of top's and bottom's `y`.
    pub fn center(&self) -> (r: Point<Scalar>)
        ensures
            r@ == center_of(self@),
    {
        let two = Scalar::from_int(2);
        let x_0 = self.p1.x.plus(&self.p3.x).over(&two);
        let y_0 = self.p2.y.plus(&self.p4.y).over(&two);
        Point::new(x_0, y_0)
    }

    /// Scales the quadrilateral by `1 + scale` away from its middle, or from
    /// the crossing of its diagonals.
    pub fn enlarge(&self, scale: Scalar, use_center: bool) -> (r: ControlPoints<Scalar>)
        ensures
            r@ == enlarged(self@, scale@, use_center),
    {
        let origin = if use_center {
            self.center()
        } else {
            self.cross()
        };
        self.clone() + self.clone() * scale.clone() - origin * scale
    }

    /// Moves the two corners by the offset from the crossing to the middle.
    pub fn centralize_y(&self) -> (r: ControlPoints<Scalar>)
        ensures
            r@ == centralized(self@),
    {
        let cross = self.cross();
        let center = self.center();
        ControlPoints {
            p1: center.clone() - cross.clone() + self.p1.clone(),
            p2: self.p2.clone(),
            p3: center - cross + self.p3.clone(),
            p4: self.p4.clone(),
        }
    }

    /// Whether the crossing lies below the top or above the bottom.
    pub fn is_convex(&self) -> (r: Option<bool>)
        ensures
            r == convexity(self@),
    {
        let y0 = self.cross().y;
        Some(
            matches!(y0.partial_cmp(&self.p2.y)?, Ordering::Greater)
                || matches!(y0.partial_cmp(&self.p4.y)?, Ordering::Less),
        )
    }

    /// The box around the quadrilateral, and the quadrilateral as seen from
    /// the box's top left corner.
    pub fn shift_origin(&self) -> (r: Option<(Point<Scalar>, Point<Scalar>, ControlPoints<Scalar>)>)
        ensures
            match r {
                Some((lt, rb, local)) => framed(self@) == Some((lt@, rb@, local@)),
                None => framed(self@) is None,
            },
    {
        let cross = self.cross();
        let left_top = self.p1.clone() - cross.clone() + self.p2.clone();
        let right_top = self.p3.clone() - cross.clone() + self.p2.clone();
        let left_bottom = self.p1.clone() - cross.clone() + self.p4.clone();
        let right_bottom = self.p3.clone() - cross + self.p4.clone();
        let margin = Scalar::from_int(4);
        let bound_left_top = Point::new(
            poset_min(left_top.x.clone(), left_bottom.x.clone())?.minus(&margin),
            poset_min(left_top.y, right_top.y.clone())?.minus(&margin),
        );
        let bound_right_bottom = Point::new(
            poset_max(right_top.x, right_bottom.x.clone())?.plus(&margin),
            poset_max(left_bottom.y, right_bottom.y)?.plus(&margin),
        );
        let local = self.clone() - bound_left_top.clone();
        Some((bound_left_top, bound_right_bottom, local))
    }
}

impl From<&Rectangle<Scalar>> for ControlPoints<Scalar> {
    /// The quadrilateral that joins the middles of the rectangle's sides.
    fn from(rect: &Rectangle<Scalar>) -> (r: ControlPoints<Scalar>)
        ensures
            r@ == rectangle_quad(rect@),
    {
        let two = Scalar::from_int(2);
        ControlPoints {
            p1: Point { x: rect.x.clone(), y: rect.y.plus(&rect.h.over(&two)) },
            p2: Point { x: rect.x.plus(&rect.w.over(&two)), y: rect.y.clone() },
            p3: Point { x: rect.x.plus(&rect.w), y: rect.y.plus(&rect.h.over(&two)) },
            p4: Point { x: rect.x.plus(&rect.w.over(&two)), y: rect.y.plus(&rect.h) },
        }
    }
}

impl vstd::std_specs::convert::FromSpecImpl<&Rectangle<Scalar>> for ControlPoints<Scalar> {
    open spec fn obeys_from_spec() -> bool {
        false
    }

    open spec fn from_spec(rect: &Rectangle<Scalar>) -> ControlPoints<Scalar> {
        arbitrary()
    }
}

impl From<&Point<u32>> for Point<Scalar> {
    /// The point of the same whole coordinates.
    fn from(v: &Point<u32>) -> (r: Point<Scalar>)
        ensures
            r@ == at(Point { x: v.x as real, y: v.y as real }),
    {
        Point { x: Scalar::from_int(v.x as i64), y: Scalar::from_int(v.y as i64) }
    }
}

impl vstd::std_specs::convert::FromSpecImpl<&Point<u32>> for Point<Scalar> {
    open spec fn obeys_from_spec() -> bool {
        false
    }

    open spec fn from_spec(v: &Point<u32>) -> Point<Scalar> {
        arbitrary()
    }
}

impl From<&Rectangle<u32>> for Rectangle<Scalar> {
    /// The rectangle of the same whole corner and extent.
    fn from(v: &Rectangle<u32>) -> (r: Rectangle<Scalar>)
        ensures
            r@ == (Rectangle {
                x: Some(v.x as real),
                y: Some(v.y as real),
                w: Some(v.w as real),
                h: Some(v.h as real),
            }),
    {
        Rectangle {
            x: Scalar::from_int(v.x as i64),
            y: Scalar::from_int(v.y as i64),
            w: Scalar::from_int(v.w as i64),
            h: Scalar::from_int(v.h as i64),
        }
    }
}

impl vstd::std_specs::convert::FromSpecImpl<&Rectangle<u32>> for Rectangle<Scalar> {
    open spec fn obeys_from_spec() -> bool {
        false
    }

    open spec fn from_spec(v: &Rectangle<u32>) -> Rectangle<Scalar> {
        arbitrary()
    }
}

impl From<&ControlPoints<u32>> for ControlPoints<Scalar> {
    /// The quadrilateral of the same whole coordinates.
    fn from(v: &ControlPoints<u32>) -> (r: ControlPoints<Scalar>)
        ensures
            r@ == quad_at(
                ControlPoints {
                    p1: Point { x: v.p1.x as real, y: v.p1.y as real },
                    p2: Point { x: v.p2.x as real, y: v.p2.y as real },
                    p3: Point { x: v.p3.x as real, y: v.p3.y as real },
                    p4: Point { x: v.p4.x as real, y: v.p4.y as real },
                },
            ),
    {
        ControlPoints {
            p1: Point::from(&v.p1),
            p2: Point::from(&v.p2),
            p3: Point::from(&v.p3),
            p4: Point::from(&v.p4),
        }
    }
}

impl vstd::std_specs::convert::FromSpecImpl<&ControlPoints<u32>> for ControlPoints<Scalar> {
    open spec fn obeys_from_spec() -> bool {
        false
    }

    open spec fn from_spec(v: &ControlPoints<u32>) -> ControlPoints<Scalar> {
        arbitrary()
    }
}

impl<T> TryFrom<Vec<Point<T>>> for ControlPoints<T> {
    type Error = ();

    /// The quadrilateral of exactly four points, in their order.
    fn try_from(value: Vec<Point<T>>) -> (r: Result<ControlPoints<T>, ()>) {
        if value.len() != 4 {
            Err(())
        } else {
            let mut rest = value;
            let p4 = rest.pop().unwrap();
            let p3 = rest.pop().unwrap();
            let p2 = rest.pop().unwrap();
            let p1 = rest.pop().unwrap();
            Ok(ControlPoints::new(p1, p2, p3, p4))
        }
    }
}

impl<T> vstd::std_specs::convert::TryFromSpecImpl<Vec<Point<T>>> for ControlPoints<T> {
    open spec fn obeys_try_from_spec() -> bool {
        true
    }

    open spec fn try_from_spec(value: Vec<Point<T>>) -> Result<ControlPoints<T>, ()> {
        if value@.len() != 4 {
            Err(())
        } else {
            Ok(ControlPoints { p1: value@[0], p2: value@[1], p3: value@[2], p4: value@[3] })
        }
    }
}

impl<T: Clone> TryFrom<&Vec<Point<T>>> for ControlPoints<T> {
    type Error = ();

    /// The quadrilateral of copies of exactly four points, in their order.
    fn try_from(value: &Vec<Point<T>>) -> (r: Result<ControlPoints<T>, ()>)
        ensures
            r is Ok <==> value@.len() == 4,
            r is Ok ==> {
                let q = r->Ok_0;
                &&& cloned(value@[0].x, q.p1.x) && cloned(value@[0].y, q.p1.y)
                &&& cloned(value@[1].x, q.p2.x) && cloned(value@[1].y, q.p2.y)
                &&& cloned(value@[2].x, q.p3.x) && cloned(value@[2].y, q.p3.y)
                &&& cloned(value@[3].x, q.p4.x) && cloned(value@[3].y, q.p4.y)
            },
    {
        if value.len() != 4 {
            Err(())
        } else {
            Ok(
                ControlPoints::new(
                    value[0].clone(),
                    value[1].clone(),
                    value[2].clone(),
                    value[3].clone(),
                ),
            )
        }
    }
}

impl<T: Clone> vstd::std_specs::convert::TryFromSpecImpl<&Vec<Point<T>>> for ControlPoints<T> {
    open spec fn obeys_try_from_spec() -> bool {
        false
    }

    open spec fn try_from_spec(value: &Vec<Point<T>>) -> Result<ControlPoints<T>, ()> {
        arbitrary()
    }
}

/// The denominator of the crossing's `y` is the determinant with its sign
/// turned.
proof fn lemma_det_mirrored(q: ControlPoints<real>)
    by (nonlinear_arith)
    ensures
        (q.p2.y - q.p4.y) * (q.p1.x - q.p3.x) - (q.p1.y - q.p3.y) * (q.p2.x - q.p4.x)
            == -diagonal_det(q),
{
}

} // verus!
