//! Fitting the sprite to a mouth and drawing it.
//!
//! A mouth is given by four control points. The sprite is fitted to them in
//! one of two ways: along the lips, where the outline of the sprite's own
//! mouth follows how far the mouth is open, or plainly, where the whole
//! sprite is laid over the mouth. The first is tried on a convex mouth and
//! the second is what remains when the first yields no transform.
use crate::errors::{Error, Result};
use crate::imaging::{
    blank, compose, composed, covers, dimensions_of, fit_projection, fits_in_memory, fitted,
    flip_vertical, flipped, new_canvas, overlaid, overlay, picture_pixel, picture_size,
    quad_sound, quad_values, raster_height, raster_width, resize, resized, rgba_of,
    scale_projection, scaling, warp_into, warped, within, within_reach, Raster,
};
use crate::scalar::{fraction, minus, over, plus, root, times, whole, Scalar, Value};
use crate::types::{
    centralized, convexity, cross_of, enlarged, framed, gap, quad_defined, quad_known,
    rectangle_quad, user_abs_minus, ControlPoints, Point, Rectangle,
};
use image::imageops::FilterType;
use image::DynamicImage;
use imageproc::geometric_transformations::{Interpolation, Projection};
use vstd::prelude::*;

verus! {

/// Which face the sprite shows.
#[derive(Debug, Clone, Copy, PartialEq, Eq, Structural)]
pub enum Emotion {
    /// As the mouth is found to be.
    Auto,
    Smile,
    Cry,
}

/// How the sprite is fitted to the mouth.
#[derive(Debug, Clone, Copy, PartialEq, Eq, Structural)]
pub enum ProjectionStrategy {
    /// The whole sprite over the mouth.
    Naive,
    /// The sprite's mouth along the lips.
    RespectEdge { smile: bool },
}

/// Where the sprite goes: the top left corner of its canvas in the picture,
/// and the canvas's size.
#[derive(Debug, Clone, Copy, PartialEq, Eq, Structural)]
pub struct Canvas {
    pub left: i64,
    pub top: i64,
    pub width: u32,
    pub height: u32,
}

/// Whether the mouth smiles: its top is no farther from the crossing of the
/// diagonals than its bottom is. Indeterminate where there is no crossing.
pub open spec fn smile_of(q: ControlPoints<Value>) -> Option<bool> {
    match cross_of(q).y {
        Some(y0) => Some(gap(q.p2.y->0, y0) <= gap(q.p4.y->0, y0)),
        None => None,
    }
}

/// The sprite that shows `emotion` on a mouth that smiles or does not: the
/// sprite itself for a smile, the sprite upside down for a cry.
pub open spec fn face_of(sprite: Raster, emotion: Emotion, smile: bool) -> Raster {
    match emotion {
        Emotion::Auto => if smile {
            sprite
        } else {
            flipped(sprite)
        },
        Emotion::Smile => sprite,
        Emotion::Cry => flipped(sprite),
    }
}

/// The quadrilateral that spans a whole sprite of the given size.
pub open spec fn sprite_outline(width: u32, height: u32) -> ControlPoints<Value> {
    rectangle_quad(
        Rectangle { x: Some(0real), y: Some(0real), w: Some(width as real), h: Some(height as real) },
    )
}

/// The quadrilateral on the sprite that is laid onto `target` along the
/// lips. Its top and bottom are the middles of the sprite's upper and lower
/// edge. Its two corners lie on the ellipse
/// `(x - 180)^2 / 180^2 + y^2 / 200^2 = 1`, at the height `y` that divides
/// 200 as the crossing of `target` divides the span from its top to its
/// bottom. For a cry the ellipse is read from its other end, at `200 - y`.
pub open spec fn lips_on_sprite(target: ControlPoints<Value>, smile: bool, width: u32, height: u32)
    -> ControlPoints<Value> {
    let factor = over(minus(cross_of(target).y, target.p2.y), minus(target.p4.y, target.p2.y));
    let y = times(Some(200real), factor);
    let depth = if smile {
        y
    } else {
        minus(Some(200real), y)
    };
    let d = root(minus(Some(1real), over(times(depth, depth), Some(40000real))));
    let middle = over(Some(width as real), Some(2real));
    ControlPoints {
        p1: Point { x: times(Some(180real), minus(Some(1real), d)), y },
        p2: Point { x: middle, y: Some(0real) },
        p3: Point { x: times(Some(180real), plus(Some(1real), d)), y },
        p4: Point { x: middle, y: Some(height as real) },
    }
}

/// The quadrilateral on the sprite and the quadrilateral in the picture that
/// `strategy` pairs, for a mouth `q` and a sprite of the given size; none
/// where a coordinate of either is undefined. The mouth is enlarged by three
/// tenths: about its crossing along the lips, about its middle, and after
/// its corners were centred, for the plain fit.
pub open spec fn pairing(
    q: ControlPoints<Value>,
    strategy: ProjectionStrategy,
    width: u32,
    height: u32,
) -> Option<(ControlPoints<Value>, ControlPoints<Value>)> {
    let (source, target) = match strategy {
        ProjectionStrategy::Naive => (
            sprite_outline(width, height),
            enlarged(centralized(q), fraction(3, 10), true),
        ),
        ProjectionStrategy::RespectEdge { smile } => (
            lips_on_sprite(enlarged(q, fraction(3, 10), false), smile, width, height),
            enlarged(q, fraction(3, 10), false),
        ),
    };
    if quad_defined(source) && quad_defined(target) {
        Some((source, target))
    } else {
        None
    }
}

/// The box of `target` and the transform from `source` onto `target` as
/// seen from the box's corner; none where `target` has no canvas, a
/// coordinate is undefined or out of reach, or no transform is found.
pub open spec fn projection_of(source: ControlPoints<Value>, target: ControlPoints<Value>)
    -> Option<(Point<Value>, Point<Value>, Projection)> {
    match framed(target) {
        Some((lt, rb, local)) => if quad_defined(source) && within_reach(quad_known(source))
            && within_reach(quad_known(local)) {
            match fitted(quad_known(source), quad_known(local)) {
                Some(transform) => Some((lt, rb, transform)),
                None => None,
            }
        } else {
            None
        },
        None => None,
    }
}

/// What `strategy` yields for the mouth `q`: [`projection_of`] what it
/// pairs.
pub open spec fn attempt_of(
    q: ControlPoints<Value>,
    strategy: ProjectionStrategy,
    width: u32,
    height: u32,
) -> Option<(Point<Value>, Point<Value>, Projection)> {
    match pairing(q, strategy, width, height) {
        Some((source, target)) => projection_of(source, target),
        None => None,
    }
}

/// The fit that is used: the plain one for a mouth that is not convex; for a
/// convex one the fit along the lips, and the plain one where that yields
/// nothing.
pub open spec fn placement(
    q: ControlPoints<Value>,
    smile: bool,
    convex: bool,
    width: u32,
    height: u32,
) -> Option<(Point<Value>, Point<Value>, Projection)> {
    if !convex {
        attempt_of(q, ProjectionStrategy::Naive, width, height)
    } else {
        match attempt_of(q, ProjectionStrategy::RespectEdge { smile }, width, height) {
            Some(found) => Some(found),
            None => attempt_of(q, ProjectionStrategy::Naive, width, height),
        }
    }
}

/// The canvas between the corners `lt` and `rb` of a box: its extent and
/// its corner, each rounded towards zero. There is none unless the canvas
/// has a column and a row, the corner is a pair of 64-bit integers, and the
/// canvas at `scale` times its size can be held in memory with sixteen
/// bytes to the pixel, as it is while it is brought down to size.
pub open spec fn canvas_between(lt: Point<Value>, rb: Point<Value>, scale: u32) -> Option<Canvas> {
    let width = whole(minus(rb.x, lt.x), 0, u32::MAX as int);
    let height = whole(minus(rb.y, lt.y), 0, u32::MAX as int);
    let left = whole(lt.x, i64::MIN as int, i64::MAX as int);
    let top = whole(lt.y, i64::MIN as int, i64::MAX as int);
    if width is Some && height is Some && left is Some && top is Some && width->0 > 0 && height->0
        > 0 && width->0 * scale <= u32::MAX && height->0 * scale <= u32::MAX && 16 * (width->0
        * scale) * (height->0 * scale) <= isize::MAX {
        Some(
            Canvas {
                left: left->0 as i64,
                top: top->0 as i64,
                width: width->0 as u32,
                height: height->0 as u32,
            },
        )
    } else {
        None
    }
}

/// The picture `image` with the sprite `face` drawn onto `canvas`: the face
/// is warped through `transform` at `scale` times the canvas's size, with
/// bicubic interpolation over a transparent ground, brought down to the
/// canvas's size with a Lanczos filter, and blended over `image` at the
/// canvas's corner.
pub open spec fn rendered(
    image: DynamicImage,
    face: Raster,
    transform: Projection,
    canvas: Canvas,
    scale: u32,
) -> DynamicImage {
    let large = warped(
        face,
        composed(scaling(scale), transform),
        Interpolation::Bicubic,
        seq![0u8, 0u8, 0u8, 0u8],
        blank((canvas.width * scale) as u32, (canvas.height * scale) as u32),
    );
    overlaid(
        image,
        resized(large, canvas.width, canvas.height, FilterType::Lanczos3),
        canvas.left,
        canvas.top,
    )
}

/// What drawing `sprite` over the mouth `q` in `image` comes to: the
/// picture, or the words of the error.
pub open spec fn projected(
    sprite: Raster,
    image: DynamicImage,
    q: ControlPoints<Value>,
    emotion: Emotion,
    scale: u32,
) -> core::result::Result<DynamicImage, Seq<char>> {
    match (smile_of(q), convexity(q)) {
        (Some(smile), Some(convex)) => match placement(
            q,
            smile,
            convex,
            raster_width(sprite),
            raster_height(sprite),
        ) {
            Some((lt, rb, transform)) => match canvas_between(lt, rb, scale) {
                Some(canvas) => Ok(
                    rendered(image, face_of(sprite, emotion, smile), transform, canvas, scale),
                ),
                None => Err("canvas out of range"@),
            },
            None => Err("unable to compute projection matrix"@),
        },
        _ => Err("invalid control points"@),
    }
}

/// The canvas onto which `sprite` is drawn over the mouth `q`, where it is
/// drawn.
pub open spec fn canvas_in(sprite: Raster, q: ControlPoints<Value>, scale: u32) -> Option<Canvas> {
    match (smile_of(q), convexity(q)) {
        (Some(smile), Some(convex)) => match placement(
            q,
            smile,
            convex,
            raster_width(sprite),
            raster_height(sprite),
        ) {
            Some((lt, rb, transform)) => canvas_between(lt, rb, scale),
            None => None,
        },
        _ => None,
    }
}

/// Whether every pixel of `before` that does not lie under `canvas` is in
/// `after` as it was.
pub open spec fn keeps_outside(before: DynamicImage, after: DynamicImage, canvas: Canvas) -> bool {
    forall|px: u32, py: u32|
        within(dimensions_of(before), px, py) && !covers(
            canvas.left as int,
            canvas.top as int,
            canvas.width as int,
            canvas.height as int,
            px as int,
            py as int,
        ) ==> #[trigger] picture_pixel(after, px, py) == picture_pixel(before, px, py)
}

/// Whether the mouth smiles.
pub fn is_smile(control_points: &ControlPoints<Scalar>) -> (r: Option<bool>)
    ensures
        r == smile_of(control_points@),
{
    let y0 = control_points.cross().y;
    Some(
        user_abs_minus(control_points.p2.y.clone(), y0.clone())? <= user_abs_minus(
            control_points.p4.y.clone(),
            y0,
        )?,
    )
}

/// Whether all coordinates are defined and, rounded towards zero, 64-bit
/// integers.
fn reachable(q: &ControlPoints<Scalar>) -> (r: bool)
    ensures
        r == (quad_defined(q@) && within_reach(quad_known(q@))),
{
    q.p1.x.to_i64().is_some() && q.p1.y.to_i64().is_some() && q.p2.x.to_i64().is_some()
        && q.p2.y.to_i64().is_some() && q.p3.x.to_i64().is_some() && q.p3.y.to_i64().is_some()
        && q.p4.x.to_i64().is_some() && q.p4.y.to_i64().is_some()
}

/// The box of the target and the transform from the quadrilateral on the
/// sprite onto the target within its box.
pub fn proj_from_ctrl_pts(ciya_ctrl_pts: &ControlPoints<Scalar>, target_ctrl_pts: &ControlPoints<Scalar>)
    -> (r: Option<(Point<Scalar>, Point<Scalar>, Projection)>)
    ensures
        match r {
            Some((lt, rb, transform)) => projection_of(ciya_ctrl_pts@, target_ctrl_pts@) == Some(
                (lt@, rb@, transform),
            ),
            None => projection_of(ciya_ctrl_pts@, target_ctrl_pts@) is None,
        },
{
    let (bound_lt, bound_rb, base_landmarks) = target_ctrl_pts.shift_origin()?;
    if reachable(ciya_ctrl_pts) && reachable(&base_landmarks) {
        match (ratios_of(ciya_ctrl_pts), ratios_of(&base_landmarks)) {
            (Some(from), Some(to)) => match fit_projection(from, to) {
                Some(projection) => Some((bound_lt, bound_rb, projection)),
                None => None,
            },
            _ => None,
        }
    } else {
        None
    }
}

/// The coordinates as ratios, where all are defined.
fn ratios_of(q: &ControlPoints<Scalar>) -> (r: Option<ControlPoints<num::BigRational>>)
    ensures
        match r {
            Some(ratios) => quad_defined(q@) && quad_sound(ratios) && quad_values(ratios)
                == quad_known(q@),
            None => !quad_defined(q@),
        },
{
    Some(
        ControlPoints::new(
            Point::new(q.p1.x.to_ratio()?, q.p1.y.to_ratio()?),
            Point::new(q.p2.x.to_ratio()?, q.p2.y.to_ratio()?),
            Point::new(q.p3.x.to_ratio()?, q.p3.y.to_ratio()?),
            Point::new(q.p4.x.to_ratio()?, q.p4.y.to_ratio()?),
        ),
    )
}

/// The canvas between two corners of a box.
pub fn canvas_of(lt: &Point<Scalar>, rb: &Point<Scalar>, scale: u32) -> (r: Option<Canvas>)
    ensures
        r == canvas_between(lt@, rb@, scale),
{
    let width = rb.x.minus(&lt.x).to_u32()?;
    let height = rb.y.minus(&lt.y).to_u32()?;
    let left = lt.x.to_i64()?;
    let top = lt.y.to_i64()?;
    if width == 0 || height == 0 {
        return None;
    }
    let wide = width.checked_mul(scale)?;
    let high = height.checked_mul(scale)?;
    assert(16 * (wide as u128) * (high as u128) <= 16 * 0xffff_ffff * 0xffff_ffff)
        by (nonlinear_arith)
        requires
            wide <= 0xffff_ffff,
            high <= 0xffff_ffff,
    ;
    if 16 * (wide as u128) * (high as u128) > isize::MAX as u128 {
        return None;
    }
    Some(Canvas { left, top, width, height })
}

/// Draws the sprites that it holds.
pub struct Projector {
    ciya_image: Raster,
    flipped_ciya_image: Raster,
}

impl Projector {
    /// The sprite.
    pub closed spec fn sprite(&self) -> Raster {
        self.ciya_image
    }

    #[verifier::type_invariant]
    spec fn upside_down_is_kept(&self) -> bool {
        self.flipped_ciya_image == flipped(self.ciya_image)
    }

    /// A projector of the sprite `picture`, which it keeps as RGBA, upright
    /// and upside down.
    pub fn new(picture: &DynamicImage) -> (r: Projector)
        requires
            fits_in_memory(*picture),
        ensures
            r.sprite() == rgba_of(*picture),
    {
        let image = Raster::of(picture);
        let flipped_image = flip_vertical(&image);
        Projector { ciya_image: image, flipped_ciya_image: flipped_image }
    }

    /// A projector of the sprite `picture`, where the sprite can be kept in
    /// memory as RGBA.
    pub fn try_new(picture: &DynamicImage) -> (r: Option<Projector>)
        ensures
            match r {
                Some(projector) => fits_in_memory(*picture) && projector.sprite() == rgba_of(
                    *picture,
                ),
                None => !fits_in_memory(*picture),
            },
    {
        let (width, height) = picture_size(picture);
        assert(4 * (width as u128) * (height as u128) <= 4 * 0xffff_ffff * 0xffff_ffff)
            by (nonlinear_arith)
            requires
                width <= 0xffff_ffff,
                height <= 0xffff_ffff,
        ;
        if 4 * (width as u128) * (height as u128) <= isize::MAX as u128 {
            Some(Projector::new(picture))
        } else {
            None
        }
    }

    /// The quadrilateral on the sprite and the one in the picture that
    /// `strategy` pairs.
    pub fn calc_ctrl_pts(&self, control_points: &ControlPoints<Scalar>, strategy: ProjectionStrategy)
        -> (r: Option<(ControlPoints<Scalar>, ControlPoints<Scalar>)>)
        ensures
            match r {
                Some((source, target)) => pairing(
                    control_points@,
                    strategy,
                    raster_width(self.sprite()),
                    raster_height(self.sprite()),
                ) == Some((source@, target@)),
                None => pairing(
                    control_points@,
                    strategy,
                    raster_width(self.sprite()),
                    raster_height(self.sprite()),
                ) is None,
            },
    {
        let width = Scalar::from_int(self.ciya_image.width() as i64);
        let height = Scalar::from_int(self.ciya_image.height() as i64);
        let three_tenths = Scalar::new(3, 10);
        let (ciya_ctrl_pts, target_ctrl_pts) = match strategy {
            ProjectionStrategy::Naive => (
                ControlPoints::from(
                    &Rectangle::new(Scalar::from_int(0), Scalar::from_int(0), width, height),
                ),
                control_points.centralize_y().enlarge(three_tenths, true),
            ),
            ProjectionStrategy::RespectEdge { smile } => {
                let target_ctrl_pts = control_points.enlarge(three_tenths, false);
                let y0 = target_ctrl_pts.cross().y;
                let factor = y0.minus(&target_ctrl_pts.p2.y).over(
                    &target_ctrl_pts.p4.y.minus(&target_ctrl_pts.p2.y),
                );
                let y = Scalar::from_int(200).times(&factor);
                let one = Scalar::from_int(1);
                let depth = if smile {
                    y.clone()
                } else {
                    Scalar::from_int(200).minus(&y)
                };
                let d = one.minus(&depth.times(&depth).over(&Scalar::from_int(40000))).sqrt();
                let x1 = Scalar::from_int(180).times(&one.minus(&d));
                let x2 = Scalar::from_int(180).times(&one.plus(&d));
                let middle = width.over(&Scalar::from_int(2));
                let ciya_ctrl_pts = ControlPoints::new(
                    Point::new(x1, y.clone()),
                    Point::new(middle.clone(), Scalar::from_int(0)),
                    Point::new(x2, y),
                    Point::new(middle, height),
                );
                (ciya_ctrl_pts, target_ctrl_pts)
            },
        };
        if ciya_ctrl_pts.is_irregular() || target_ctrl_pts.is_irregular() {
            None
        } else {
            Some((ciya_ctrl_pts, target_ctrl_pts))
        }
    }

    /// What `strategy` yields: the box of its target and the transform.
    fn attempt(&self, control_points: &ControlPoints<Scalar>, strategy: ProjectionStrategy) -> (r:
        Option<(Point<Scalar>, Point<Scalar>, Projection)>)
        ensures
            match r {
                Some((lt, rb, transform)) => attempt_of(
                    control_points@,
                    strategy,
                    raster_width(self.sprite()),
                    raster_height(self.sprite()),
                ) == Some((lt@, rb@, transform)),
                None => attempt_of(
                    control_points@,
                    strategy,
                    raster_width(self.sprite()),
                    raster_height(self.sprite()),
                ) is None,
            },
    {
        match self.calc_ctrl_pts(control_points, strategy) {
            Some((from, to)) => proj_from_ctrl_pts(&from, &to),
            None => None,
        }
    }

    /// Draws the sprite over the mouth `control_points` in `image`. What of
    /// `image` does not lie under the sprite's canvas stays as it is.
    pub fn project(
        &self,
        image: DynamicImage,
        control_points: ControlPoints<Scalar>,
        emotion: Emotion,
        antialias_scale: u32,
    ) -> (r: Result<DynamicImage>)
        requires
            antialias_scale >= 1,
        ensures
            match projected(self.sprite(), image, control_points@, emotion, antialias_scale) {
                Ok(picture) => r == Ok::<DynamicImage, Error>(picture),
                Err(words) => r matches Err(Error::MathError(text)) && text@ == words,
            },
            r is Ok ==> dimensions_of(r->Ok_0) == dimensions_of(image),
            r is Ok ==> canvas_in(self.sprite(), control_points@, antialias_scale) is Some
                && keeps_outside(
                image,
                r->Ok_0,
                canvas_in(self.sprite(), control_points@, antialias_scale)->0,
            ),
    {
        proof {
            use_type_invariant(self);
        }
        let smile = match is_smile(&control_points) {
            Some(smile) => smile,
            None => {
                return Err(Error::MathError("invalid control points".to_owned()));
            },
        };
        let ciya = match emotion {
            Emotion::Auto => if smile {
                &self.ciya_image
            } else {
                &self.flipped_ciya_image
            },
            Emotion::Smile => &self.ciya_image,
            Emotion::Cry => &self.flipped_ciya_image,
        };
        let upscale_projection = scale_projection(antialias_scale);
        let convex = match control_points.is_convex() {
            Some(convex) => convex,
            None => {
                return Err(Error::MathError("invalid control points".to_owned()));
            },
        };
        let found = if !convex {
            self.attempt(&control_points, ProjectionStrategy::Naive)
        } else {
            match self.attempt(&control_points, ProjectionStrategy::RespectEdge { smile }) {
                Some(found) => Some(found),
                None => self.attempt(&control_points, ProjectionStrategy::Naive),
            }
        };
        let (offset, bound_rb, projection) = match found {
            Some(found) => found,
            None => {
                return Err(Error::MathError("unable to compute projection matrix".to_owned()));
            },
        };
        let canvas = match canvas_of(&offset, &bound_rb, antialias_scale) {
            Some(canvas) => canvas,
            None => {
                return Err(Error::MathError("canvas out of range".to_owned()));
            },
        };
        assert(canvas.width * antialias_scale >= 1) by (nonlinear_arith)
            requires
                canvas.width >= 1,
                antialias_scale >= 1,
        ;
        assert(16 * (canvas.width * antialias_scale) * canvas.height <= 16 * (canvas.width
            * antialias_scale) * (canvas.height * antialias_scale) && 4 * canvas.width
            * canvas.height <= 16 * (canvas.width * antialias_scale) * (canvas.height
            * antialias_scale) && 4 * (canvas.width * antialias_scale) * (canvas.height
            * antialias_scale) <= 16 * (canvas.width * antialias_scale) * (canvas.height
            * antialias_scale)) by (nonlinear_arith)
            requires
                canvas.width >= 1,
                canvas.height >= 1,
                antialias_scale >= 1,
        ;
        let projection = compose(upscale_projection, projection);
        let mut warped_ciya = new_canvas(
            canvas.width * antialias_scale,
            canvas.height * antialias_scale,
        );
        warp_into(ciya, &projection, Interpolation::Bicubic, [0, 0, 0, 0], &mut warped_ciya);
        let warped_ciya = resize(&warped_ciya, canvas.width, canvas.height, FilterType::Lanczos3);
        let mut image = image;
        overlay(&mut image, &warped_ciya, canvas.left, canvas.top);
        Ok(image)
    }
}

} // verus!
