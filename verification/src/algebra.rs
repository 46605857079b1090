//! Steps of plain algebra over the real numbers, each small enough for the
//! solver's nonlinear arithmetic.
use vstd::prelude::*;

verus! {

/// Swapping the factors of both products turns the sign of their difference.
pub(crate) proof fn lemma_turned(ax: real, ay: real, bx: real, by: real)
    by (nonlinear_arith)
    ensures
        by * ax - ay * bx == -(bx * ay - ax * by),
{
}

/// A product with a negated factor is the negated product.
pub(crate) proof fn lemma_negated(a: real, b: real)
    by (nonlinear_arith)
    ensures
        a * (-b) == -(a * b),
{
}

/// What the two quotients of the crossing are, multiplied out.
pub(crate) proof fn lemma_quotients(nx: real, ny: real, d: real, cx: real, cy: real)
    by (nonlinear_arith)
    requires
        d != 0real,
        cx == nx / d,
        cy == ny / (-d),
    ensures
        cx * d == nx,
        cy * d == -ny,
{
}

/// The area that a point spans with a point displaced from it is the area
/// that it spans with the displacement.
pub(crate) proof fn lemma_area(px: real, py: real, dx: real, dy: real)
    by (nonlinear_arith)
    ensures
        (px - dx) * py - px * (py - dy) == px * dy - py * dx,
{
}

/// The direction of a diagonal is a factor of what its end is short of the
/// crossing.
pub(crate) proof fn lemma_factor(
    px: real,
    py: real,
    dx1: real,
    dy1: real,
    dx2: real,
    dy2: real,
    k1: real,
    d: real,
)
    by (nonlinear_arith)
    requires
        k1 == px * dy1 - py * dx1,
        d == dx2 * dy1 - dx1 * dy2,
    ensures
        dx2 * k1 - px * d == dx1 * (px * dy2 - py * dx2),
        dy2 * k1 - py * d == dy1 * (px * dy2 - py * dx2),
{
}

/// From the crossing multiplied out to its offset from an end of the first
/// diagonal.
pub(crate) proof fn lemma_offset(c: real, p: real, d: real, lead: real, dir: real, k: real, t: real)
    by (nonlinear_arith)
    requires
        c * d == lead - dir * k,
        lead - p * d == dir * t,
    ensures
        (c - p) * d == dir * (t - k),
{
}

/// From the crossing multiplied out to its offset from an end of the
/// second diagonal.
pub(crate) proof fn lemma_offset_other(c: real, p: real, d: real, lead: real, dir: real, k: real, t: real)
    by (nonlinear_arith)
    requires
        c * d == dir * k - lead,
        lead - p * (-d) == dir * t,
    ensures
        (c - p) * d == dir * (k - t),
{
}

/// Two offsets in the ratio of a direction point in that direction.
pub(crate) proof fn lemma_cancel(a: real, b: real, d: real, dx: real, dy: real, t: real)
    by (nonlinear_arith)
    requires
        a * d == dx * t,
        b * d == dy * t,
        d != 0real,
    ensures
        a * dy == b * dx,
{
}

/// Two numbers scaled away from one origin differ by their scaled
/// difference.
pub(crate) proof fn lemma_scaled_difference(a: real, b: real, c: real, s: real)
    by (nonlinear_arith)
    ensures
        (a + a * s - c * s) - (b + b * s - c * s) == (1real + s) * (a - b),
{
}

/// The origin is as far from a number scaled away from it as from the
/// number, scaled.
pub(crate) proof fn lemma_scaled_offset(a: real, c: real, s: real)
    by (nonlinear_arith)
    ensures
        c - (a + a * s - c * s) == (1real + s) * (c - a),
{
}

/// The product of two scaled numbers is their product, scaled twice.
pub(crate) proof fn lemma_scaled_product(a: real, b: real, t: real)
    by (nonlinear_arith)
    ensures
        (t * a) * (t * b) == (t * t) * (a * b),
{
}

/// A common factor of a difference.
pub(crate) proof fn lemma_common_factor(k: real, p: real, q: real)
    by (nonlinear_arith)
    ensures
        k * p - k * q == k * (p - q),
{
}

/// A product of numbers that are not zero is not zero.
pub(crate) proof fn lemma_product_not_zero(a: real, b: real)
    by (nonlinear_arith)
    requires
        a != 0real,
        b != 0real,
    ensures
        a * b != 0real,
{
}

/// An offset that points in a direction still does when both are scaled.
pub(crate) proof fn lemma_scaled_line(a: real, b: real, dx: real, dy: real, t: real)
    by (nonlinear_arith)
    requires
        a * dy == b * dx,
    ensures
        (t * a) * (t * dy) == (t * b) * (t * dx),
{
}

/// Two points that lie in one direction from a third lie in that direction
/// from each other.
pub(crate) proof fn lemma_between_points(
    xx: real,
    xy: real,
    yx: real,
    yy: real,
    ax: real,
    ay: real,
    ux: real,
    uy: real,
)
    by (nonlinear_arith)
    requires
        (xx - ax) * uy == (xy - ay) * ux,
        (yx - ax) * uy == (yy - ay) * ux,
    ensures
        (xx - yx) * uy == (xy - yy) * ux,
{
}

/// Nothing but the null offset points in two independent directions.
pub(crate) proof fn lemma_independent(wx: real, wy: real, ux: real, uy: real, vx: real, vy: real)
    by (nonlinear_arith)
    requires
        wx * uy == wy * ux,
        wx * vy == wy * vx,
        vx * uy - ux * vy != 0real,
    ensures
        wx == 0real,
        wy == 0real,
{
    assert(wx * (vx * uy - ux * vy) == 0real) by {
        assert(wx * uy * vx == wy * ux * vx);
        assert(wx * vy * ux == wy * vx * ux);
    }
    assert(wy * (vx * uy - ux * vy) == 0real) by {
        assert(wx * uy * vy == wy * ux * vy);
        assert(wx * vy * uy == wy * vx * uy);
    }
}

/// A quotient keeps its value when both of its terms are scaled.
pub(crate) proof fn lemma_scaled_quotient(a: real, b: real, t: real)
    by (nonlinear_arith)
    requires
        t != 0real,
        b != 0real,
    ensures
        t * b != 0real,
        (t * a) / (t * b) == a / b,
{
}

/// Scaling a number by zero, or zero by a number, gives zero.
pub(crate) proof fn lemma_scaled_zero(t: real, b: real)
    by (nonlinear_arith)
    requires
        b == 0real,
    ensures
        t * b == 0real,
{
}

} // verus!
