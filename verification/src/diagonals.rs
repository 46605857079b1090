//! The crossing of the diagonals is their intersection.
use crate::algebra::{
    lemma_area, lemma_between_points, lemma_cancel, lemma_common_factor, lemma_factor,
    lemma_independent, lemma_negated, lemma_offset, lemma_offset_other, lemma_product_not_zero,
    lemma_quotients, lemma_scaled_difference, lemma_scaled_line, lemma_scaled_offset,
    lemma_scaled_product, lemma_scaled_quotient, lemma_scaled_zero, lemma_turned,
};
use crate::scalar::{minus, over, Value};
use crate::types::{
    cross_of, diagonal_det, enlarged, intersection, quad_defined, quad_known, ControlPoints,
};
use vstd::prelude::*;

verus! {

/// The crossing lies on both diagonals: seen from the left corner it points
/// the way `p3` does, and seen from the top the way `p4` does.
pub proof fn law_cross_lies_on_diagonals(q: ControlPoints<real>)
    requires
        diagonal_det(q) != 0real,
    ensures
        (intersection(q).x - q.p1.x) * (q.p1.y - q.p3.y) == (intersection(q).y - q.p1.y) * (q.p1.x
            - q.p3.x),
        (intersection(q).x - q.p2.x) * (q.p2.y - q.p4.y) == (intersection(q).y - q.p2.y) * (q.p2.x
            - q.p4.x),
{
    let d = diagonal_det(q);
    let (dx1, dy1) = (q.p1.x - q.p3.x, q.p1.y - q.p3.y);
    let (dx2, dy2) = (q.p2.x - q.p4.x, q.p2.y - q.p4.y);
    let k1 = q.p3.x * q.p1.y - q.p1.x * q.p3.y;
    let k2 = q.p4.x * q.p2.y - q.p2.x * q.p4.y;
    let m1 = q.p3.y * q.p1.x - q.p1.y * q.p3.x;
    let m2 = q.p4.y * q.p2.x - q.p2.y * q.p4.x;
    let c = intersection(q);
    assert(c.x == (dx2 * k1 - dx1 * k2) / d);
    assert(c.y == (dy2 * m1 - dy1 * m2) / (-d));
    lemma_turned(q.p1.x, q.p1.y, q.p3.x, q.p3.y);
    lemma_turned(q.p2.x, q.p2.y, q.p4.x, q.p4.y);
    assert(m1 == -k1 && m2 == -k2);
    lemma_negated(dy2, k1);
    lemma_negated(dy1, k2);
    lemma_quotients(dx2 * k1 - dx1 * k2, dy2 * m1 - dy1 * m2, d, c.x, c.y);
    lemma_area(q.p1.x, q.p1.y, dx1, dy1);
    lemma_area(q.p2.x, q.p2.y, dx2, dy2);
    assert(k1 == q.p1.x * dy1 - q.p1.y * dx1);
    assert(k2 == q.p2.x * dy2 - q.p2.y * dx2);
    // along the first diagonal
    let t1 = q.p1.x * dy2 - q.p1.y * dx2;
    lemma_factor(q.p1.x, q.p1.y, dx1, dy1, dx2, dy2, k1, d);
    lemma_offset(c.x, q.p1.x, d, dx2 * k1, dx1, k2, t1);
    lemma_offset(c.y, q.p1.y, d, dy2 * k1, dy1, k2, t1);
    lemma_cancel(c.x - q.p1.x, c.y - q.p1.y, d, dx1, dy1, t1 - k2);
    // along the second diagonal
    let t2 = q.p2.x * dy1 - q.p2.y * dx1;
    lemma_factor(q.p2.x, q.p2.y, dx2, dy2, dx1, dy1, k2, -d);
    lemma_offset_other(c.x, q.p2.x, d, dx1 * k2, dx2, k1, t2);
    lemma_offset_other(c.y, q.p2.y, d, dy1 * k2, dy2, k1, t2);
    lemma_cancel(c.x - q.p2.x, c.y - q.p2.y, d, dx2, dy2, k1 - t2);
}

/// Enlarging a quadrilateral about the crossing of its diagonals leaves the
/// crossing where it is, unless the quadrilateral shrinks to a point.
pub proof fn law_enlarge_keeps_crossing(q: ControlPoints<Value>, s: real)
    requires
        quad_defined(q),
        diagonal_det(quad_known(q)) != 0real,
        s != -1real,
    ensures
        cross_of(enlarged(q, Some(s), false)) == cross_of(q),
{
    let k = quad_known(q);
    let c = intersection(k);
    let e = enlarged(q, Some(s), false);
    assert(quad_defined(e));
    let ke = quad_known(e);
    let t = 1real + s;
    let (dx1, dy1) = (k.p1.x - k.p3.x, k.p1.y - k.p3.y);
    let (dx2, dy2) = (k.p2.x - k.p4.x, k.p2.y - k.p4.y);
    // the diagonals keep their directions
    lemma_scaled_difference(k.p1.x, k.p3.x, c.x, s);
    lemma_scaled_difference(k.p1.y, k.p3.y, c.y, s);
    lemma_scaled_difference(k.p2.x, k.p4.x, c.x, s);
    lemma_scaled_difference(k.p2.y, k.p4.y, c.y, s);
    assert(ke.p1.x - ke.p3.x == t * dx1 && ke.p1.y - ke.p3.y == t * dy1);
    assert(ke.p2.x - ke.p4.x == t * dx2 && ke.p2.y - ke.p4.y == t * dy2);
    // and stay apart
    lemma_scaled_product(dx2, dy1, t);
    lemma_scaled_product(dx1, dy2, t);
    lemma_common_factor(t * t, dx2 * dy1, dx1 * dy2);
    assert(diagonal_det(ke) == (t * t) * diagonal_det(k));
    lemma_product_not_zero(t, t);
    lemma_product_not_zero(t * t, diagonal_det(k));
    // the old crossing lies on the new diagonals
    law_cross_lies_on_diagonals(k);
    lemma_scaled_offset(k.p1.x, c.x, s);
    lemma_scaled_offset(k.p1.y, c.y, s);
    lemma_scaled_offset(k.p2.x, c.x, s);
    lemma_scaled_offset(k.p2.y, c.y, s);
    lemma_scaled_line(c.x - k.p1.x, c.y - k.p1.y, dx1, dy1, t);
    lemma_scaled_line(c.x - k.p2.x, c.y - k.p2.y, dx2, dy2, t);
    // and so does the new one: they are one point
    let n = intersection(ke);
    law_cross_lies_on_diagonals(ke);
    lemma_between_points(n.x, n.y, c.x, c.y, ke.p1.x, ke.p1.y, t * dx1, t * dy1);
    lemma_between_points(n.x, n.y, c.x, c.y, ke.p2.x, ke.p2.y, t * dx2, t * dy2);
    lemma_independent(n.x - c.x, n.y - c.y, t * dx1, t * dy1, t * dx2, t * dy2);
    assert(n == c);
}

/// How the crossing divides the span from top to bottom does not change
/// when the quadrilateral is enlarged about the crossing.
pub proof fn law_enlarge_keeps_division(q: ControlPoints<Value>, s: real)
    requires
        quad_defined(q),
        diagonal_det(quad_known(q)) != 0real,
        s != -1real,
    ensures
        ({
            let e = enlarged(q, Some(s), false);
            over(minus(cross_of(e).y, e.p2.y), minus(e.p4.y, e.p2.y)) == over(
                minus(cross_of(q).y, q.p2.y),
                minus(q.p4.y, q.p2.y),
            )
        }),
{
    law_enlarge_keeps_crossing(q, s);
    let k = quad_known(q);
    let c = intersection(k);
    let t = 1real + s;
    lemma_scaled_offset(k.p2.y, c.y, s);
    lemma_scaled_difference(k.p4.y, k.p2.y, c.y, s);
    if k.p4.y - k.p2.y == 0real {
        lemma_scaled_zero(t, k.p4.y - k.p2.y);
    } else {
        lemma_scaled_quotient(c.y - k.p2.y, k.p4.y - k.p2.y, t);
    }
}

} // verus!
