//! What holds of the geometry, for every quadrilateral.
use crate::imaging::Raster;
use crate::projector::{
    attempt_of, pairing, placement, projected, smile_of, Emotion, ProjectionStrategy,
};
use crate::scalar::{minus, plus, times, Value};
use image::DynamicImage;
use crate::types::{
    center_of, convexity, cross_of, diagonal_det, enlarged, framed, intersection, origin_of,
    point_defined, quad_defined, quad_known, rectangle_quad, ControlPoints, Rectangle,
};
use vstd::prelude::*;

verus! {

/// A quadrilateral with an undefined coordinate has no crossing, so neither
/// its convexity nor its canvas is determined.
pub proof fn law_undefined_is_indeterminate(q: ControlPoints<Value>)
    requires
        !quad_defined(q),
    ensures
        !point_defined(cross_of(q)),
        convexity(q) is None,
        framed(q) is None,
{
}

/// The quadrilateral that joins the middles of the sides of a rectangle of
/// positive width and height is convex.
pub proof fn law_rectangle_is_convex(r: Rectangle<Value>)
    requires
        r.x is Some,
        r.y is Some,
        r.w is Some,
        r.h is Some,
        r.w->0 > 0real,
        r.h->0 > 0real,
    ensures
        convexity(rectangle_quad(r)) == Some(true),
{
    let q = rectangle_quad(r);
    assert(quad_defined(q));
    let k = quad_known(q);
    let w = r.w->0;
    let h = r.h->0;
    assert(k.p2.x - k.p4.x == 0real);
    assert(k.p1.y - k.p3.y == 0real);
    assert(k.p1.x - k.p3.x == -w);
    assert(k.p2.y - k.p4.y == -h);
    assert(diagonal_det(k) != 0real) by (nonlinear_arith)
        requires
            k.p2.x - k.p4.x == 0real,
            k.p1.y - k.p3.y == 0real,
            k.p1.x - k.p3.x == -w,
            k.p2.y - k.p4.y == -h,
            w > 0real,
            h > 0real,
            diagonal_det(k) == (k.p2.x - k.p4.x) * (k.p1.y - k.p3.y) - (k.p1.x - k.p3.x) * (k.p2.y
                - k.p4.y),
    ;
    assert(k.p2.y < k.p4.y);
}

/// Enlarging by nothing changes nothing, where the origin of the scaling is
/// defined.
pub proof fn law_enlarge_by_zero(q: ControlPoints<Value>, use_center: bool)
    requires
        point_defined(origin_of(q, use_center)),
    ensures
        enlarged(q, Some(0real), use_center) == q,
{
    let o = origin_of(q, use_center);
    let e = enlarged(q, Some(0real), use_center);
    lemma_scale_by_zero(q.p1.x, o.x);
    lemma_scale_by_zero(q.p1.y, o.y);
    lemma_scale_by_zero(q.p2.x, o.x);
    lemma_scale_by_zero(q.p2.y, o.y);
    lemma_scale_by_zero(q.p3.x, o.x);
    lemma_scale_by_zero(q.p3.y, o.y);
    lemma_scale_by_zero(q.p4.x, o.x);
    lemma_scale_by_zero(q.p4.y, o.y);
    assert(e.p1 == q.p1);
    assert(e.p2 == q.p2);
    assert(e.p3 == q.p3);
    assert(e.p4 == q.p4);
}

/// One coordinate of [`law_enlarge_by_zero`].
proof fn lemma_scale_by_zero(v: Value, o: Value)
    requires
        o is Some,
    ensures
        minus(plus(v, times(v, Some(0real))), times(o, Some(0real))) == v,
{
    if v is Some {
        let a = v->0;
        let b = o->0;
        assert(a + a * 0real - b * 0real == a) by (nonlinear_arith);
    }
}

/// A quadrilateral whose top and bottom are level is not convex, where its
/// diagonals cross at all.
pub proof fn law_level_is_not_convex(q: ControlPoints<Value>)
    requires
        quad_defined(q),
        q.p2.y == q.p4.y,
    ensures
        convexity(q) == if diagonal_det(quad_known(q)) != 0real {
            Some(false)
        } else {
            None
        },
{
    let k = quad_known(q);
    let d = diagonal_det(k);
    if d != 0real {
        let c = k.p2.y;
        let ny = (k.p2.y - k.p4.y) * (k.p3.y * k.p1.x - k.p1.y * k.p3.x) - (k.p1.y - k.p3.y) * (
        k.p4.y * k.p2.x - k.p2.y * k.p4.x);
        assert(ny == c * (-d)) by (nonlinear_arith)
            requires
                k.p2.y == c,
                k.p4.y == c,
                d == (k.p2.x - k.p4.x) * (k.p1.y - k.p3.y) - (k.p1.x - k.p3.x) * (k.p2.y - k.p4.y),
                ny == (k.p2.y - k.p4.y) * (k.p3.y * k.p1.x - k.p1.y * k.p3.x) - (k.p1.y - k.p3.y)
                    * (k.p4.y * k.p2.x - k.p2.y * k.p4.x),
        ;
        assert(ny / (-d) == c) by (nonlinear_arith)
            requires
                ny == c * (-d),
                d != 0real,
        ;
        assert(intersection(k).y == c);
    }
}

/// The canvas is a function of the quadrilateral: whatever is computed
/// twice from equal corners is equal.
pub proof fn law_frame_repeats(a: ControlPoints<Value>, b: ControlPoints<Value>)
    requires
        a == b,
    ensures
        cross_of(a) == cross_of(b),
        center_of(a) == center_of(b),
        framed(a) == framed(b),
{
}

/// A mouth with an undefined coordinate is never drawn: the projector
/// answers that its control points are invalid.
pub proof fn law_undefined_is_rejected(
    sprite: Raster,
    image: DynamicImage,
    q: ControlPoints<Value>,
    emotion: Emotion,
    scale: u32,
)
    requires
        !quad_defined(q),
    ensures
        smile_of(q) is None,
        projected(sprite, image, q, emotion, scale) == Err::<DynamicImage, Seq<char>>(
            "invalid control points"@,
        ),
{
}

/// A mouth whose top and bottom are level has no fit along the lips: the
/// outline on the sprite would divide by the mouth's height.
pub proof fn law_level_mouth_has_no_lips(
    q: ControlPoints<Value>,
    smile: bool,
    width: u32,
    height: u32,
)
    requires
        q.p2.y == q.p4.y,
    ensures
        pairing(q, ProjectionStrategy::RespectEdge { smile }, width, height) is None,
{
}

/// A mouth whose top and bottom are level is fitted plainly, whatever the
/// fit along the lips would give.
pub proof fn law_level_mouth_is_fitted_plainly(
    q: ControlPoints<Value>,
    smile: bool,
    width: u32,
    height: u32,
)
    requires
        quad_defined(q),
        q.p2.y == q.p4.y,
        diagonal_det(quad_known(q)) != 0real,
    ensures
        convexity(q) == Some(false),
        placement(q, smile, convexity(q)->0, width, height) == attempt_of(
            q,
            ProjectionStrategy::Naive,
            width,
            height,
        ),
{
    law_level_is_not_convex(q);
}

/// Where the fit along the lips yields nothing, the plain fit decides: a
/// convex mouth is then placed exactly as the plain fit places it.
pub proof fn law_plain_fit_is_the_fallback(
    q: ControlPoints<Value>,
    smile: bool,
    width: u32,
    height: u32,
)
    requires
        attempt_of(q, ProjectionStrategy::RespectEdge { smile }, width, height) is None,
    ensures
        placement(q, smile, true, width, height) == attempt_of(
            q,
            ProjectionStrategy::Naive,
            width,
            height,
        ),
        placement(q, smile, false, width, height) == attempt_of(
            q,
            ProjectionStrategy::Naive,
            width,
            height,
        ),
{
}

} // verus!
