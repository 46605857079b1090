//! Pictures and projective transforms, supplied by the `image` and
//! `imageproc` crates.
//!
//! Nothing in this file is proved. Pictures and transforms are opaque here:
//! each function below makes one call into an outside crate, and says which
//! picture or transform comes back by giving it a name that depends on the
//! arguments alone. Beside the name stands what little can be said in a
//! line: the size of the result, its pixels where the picture is blank or
//! turned upside down, and that blending leaves the pixels beside the
//! upper picture alone.
use crate::rational::{ratio_sound, ratio_value, truncate};
use crate::types::{ControlPoints, Point};
use image::imageops::FilterType;
use image::DynamicImage;
use imageproc::geometric_transformations::{Interpolation, Projection};
use vstd::prelude::*;

verus! {

#[verifier::external_type_specification]
#[verifier::external_body]
pub struct ExDynamicImage(DynamicImage);

#[verifier::external_type_specification]
#[verifier::external_body]
pub struct ExProjection(Projection);

#[verifier::external_type_specification]
pub struct ExInterpolation(Interpolation);

#[verifier::external_type_specification]
pub struct ExFilterType(FilterType);

/// A picture of red, green, blue and opacity, eight bits each: an
/// `image::RgbaImage`. The verifier sees nothing of it: the outside type is
/// bounded by a trait that the verifier does not know, so it is held here
/// and spoken of by the names below.
#[verifier::external_body]
pub struct Raster {
    inner: image::RgbaImage,
}

/// How many pixels wide a picture is.
pub uninterp spec fn raster_width(picture: Raster) -> u32;

/// How many pixels high a picture is.
pub uninterp spec fn raster_height(picture: Raster) -> u32;

/// The four channels of the pixel in column `x` and row `y` of a picture.
pub uninterp spec fn raster_pixel(picture: Raster, x: u32, y: u32) -> Seq<u8>;

/// The four channels, as red, green, blue and opacity of eight bits, of the
/// pixel in column `x` and row `y` of a picture of any colour type.
pub uninterp spec fn picture_pixel(picture: DynamicImage, x: u32, y: u32) -> Seq<u8>;

/// Width and height of a picture of any colour type.
pub uninterp spec fn dimensions_of(picture: DynamicImage) -> (u32, u32);

/// The picture converted to eight-bit RGBA.
pub uninterp spec fn rgba_of(picture: DynamicImage) -> Raster;

/// The picture turned upside down.
pub uninterp spec fn flipped(picture: Raster) -> Raster;

/// The fully transparent picture of a given size.
pub uninterp spec fn blank(width: u32, height: u32) -> Raster;

/// The transform that takes the four corners `from` to the four corners
/// `to`, where the solver finds one.
pub uninterp spec fn fitted(from: ControlPoints<real>, to: ControlPoints<real>) -> Option<
    Projection,
>;

/// The transform that multiplies both coordinates by `factor`.
pub uninterp spec fn scaling(factor: u32) -> Projection;

/// The transform that applies `second` and then `first`.
pub uninterp spec fn composed(first: Projection, second: Projection) -> Projection;

/// The canvas after the sprite was drawn into it through the transform.
pub uninterp spec fn warped(
    sprite: Raster,
    transform: Projection,
    interpolation: Interpolation,
    background: Seq<u8>,
    canvas: Raster,
) -> Raster;

/// The picture resampled to a new size.
pub uninterp spec fn resized(picture: Raster, width: u32, height: u32, filter: FilterType) -> Raster;

/// The picture `bottom` with `top` blended over it, the top left corner of
/// `top` at `(x, y)`.
pub uninterp spec fn overlaid(bottom: DynamicImage, top: Raster, x: i64, y: i64) -> DynamicImage;

/// Whether a copy of the picture with four bytes to the pixel can be held
/// in a vector.
pub open spec fn fits_in_memory(picture: DynamicImage) -> bool {
    let (width, height) = dimensions_of(picture);
    4 * width * height <= isize::MAX
}

/// Whether all eight ratios are well formed.
pub open spec fn quad_sound(q: ControlPoints<num::BigRational>) -> bool {
    &&& ratio_sound(q.p1.x) && ratio_sound(q.p1.y)
    &&& ratio_sound(q.p2.x) && ratio_sound(q.p2.y)
    &&& ratio_sound(q.p3.x) && ratio_sound(q.p3.y)
    &&& ratio_sound(q.p4.x) && ratio_sound(q.p4.y)
}

/// The numbers that eight ratios denote.
pub open spec fn quad_values(q: ControlPoints<num::BigRational>) -> ControlPoints<real> {
    ControlPoints {
        p1: Point { x: ratio_value(q.p1.x), y: ratio_value(q.p1.y) },
        p2: Point { x: ratio_value(q.p2.x), y: ratio_value(q.p2.y) },
        p3: Point { x: ratio_value(q.p3.x), y: ratio_value(q.p3.y) },
        p4: Point { x: ratio_value(q.p4.x), y: ratio_value(q.p4.y) },
    }
}

/// Whether every coordinate, rounded towards zero, is a 64-bit integer.
/// Only such quadrilaterals are handed to the solver.
pub open spec fn within_reach(q: ControlPoints<real>) -> bool {
    &&& i64::MIN <= truncate(q.p1.x) <= i64::MAX && i64::MIN <= truncate(q.p1.y) <= i64::MAX
    &&& i64::MIN <= truncate(q.p2.x) <= i64::MAX && i64::MIN <= truncate(q.p2.y) <= i64::MAX
    &&& i64::MIN <= truncate(q.p3.x) <= i64::MAX && i64::MIN <= truncate(q.p3.y) <= i64::MAX
    &&& i64::MIN <= truncate(q.p4.x) <= i64::MAX && i64::MIN <= truncate(q.p4.y) <= i64::MAX
}

impl Raster {
    /// `DynamicImage::to_rgba8`: the picture as eight-bit RGBA, of the same
    /// size. The outside function panics where the copy would be longer
    /// than a vector can be, which the precondition excludes.
    #[verifier::external_body]
    pub(crate) fn of(picture: &DynamicImage) -> (r: Raster)
        requires
            fits_in_memory(*picture),
        ensures
            r == rgba_of(*picture),
            (raster_width(r), raster_height(r)) == dimensions_of(*picture),
    {
        Raster { inner: picture.to_rgba8() }
    }

    /// `ImageBuffer::width`.
    #[verifier::external_body]
    pub(crate) fn width(&self) -> (r: u32)
        ensures
            r == raster_width(*self),
    {
        self.inner.width()
    }

    /// `ImageBuffer::height`.
    #[verifier::external_body]
    pub(crate) fn height(&self) -> (r: u32)
        ensures
            r == raster_height(*self),
    {
        self.inner.height()
    }
}

/// `GenericImageView::dimensions` of a picture: its width and height.
#[verifier::external_body]
pub(crate) fn picture_size(picture: &DynamicImage) -> (r: (u32, u32))
    ensures
        r == dimensions_of(*picture),
{
    image::GenericImageView::dimensions(picture)
}

/// `imageops::flip_vertical`: the picture with its rows in reverse order, of
/// the same size.
#[verifier::external_body]
pub(crate) fn flip_vertical(picture: &Raster) -> (r: Raster)
    ensures
        r == flipped(*picture),
        raster_width(r) == raster_width(*picture),
        raster_height(r) == raster_height(*picture),
        forall|x: u32, y: u32|
            x < raster_width(r) && y < raster_height(r) ==> #[trigger] raster_pixel(r, x, y)
                == raster_pixel(*picture, x, (raster_height(r) - 1 - y) as u32),
{
    Raster { inner: image::imageops::flip_vertical(&picture.inner) }
}

/// `ImageBuffer::new`: a picture of the given size with every channel zero.
/// The outside function panics where the buffer would be longer than a
/// vector can be, which the precondition excludes.
#[verifier::external_body]
pub(crate) fn new_canvas(width: u32, height: u32) -> (r: Raster)
    requires
        4 * width * height <= isize::MAX,
    ensures
        r == blank(width, height),
        raster_width(r) == width,
        raster_height(r) == height,
        forall|x: u32, y: u32|
            x < width && y < height ==> #[trigger] raster_pixel(r, x, y) == seq![0u8, 0u8, 0u8, 0u8],
{
    Raster { inner: image::RgbaImage::new(width, height) }
}

/// `Projection::from_control_points` on the corners, each ratio turned by
/// `NumCast::from` into the floating-point number nearest to it: a
/// transform, or none where the solver finds none. The ratios are well
/// formed and within reach, so that every coordinate stays finite.
#[verifier::external_body]
pub(crate) fn fit_projection(
    from: ControlPoints<num::BigRational>,
    to: ControlPoints<num::BigRational>,
) -> (r: Option<Projection>)
    requires
        quad_sound(from),
        quad_sound(to),
        within_reach(quad_values(from)),
        within_reach(quad_values(to)),
    ensures
        r == fitted(quad_values(from), quad_values(to)),
{
    let pair = |p: Point<num::BigRational>|
        Some((num::NumCast::from(p.x)?, num::NumCast::from(p.y)?));
    Projection::from_control_points(
        [pair(from.p1)?, pair(from.p2)?, pair(from.p3)?, pair(from.p4)?],
        [pair(to.p1)?, pair(to.p2)?, pair(to.p3)?, pair(to.p4)?],
    )
}

/// `Projection::scale` with the same factor along both axes.
#[verifier::external_body]
pub(crate) fn scale_projection(factor: u32) -> (r: Projection)
    ensures
        r == scaling(factor),
{
    let k = num::cast(factor).unwrap_or_default();
    Projection::scale(k, k)
}

/// `Mul::mul` of two transforms: `second` followed by `first`.
#[verifier::external_body]
pub(crate) fn compose(first: Projection, second: Projection) -> (r: Projection)
    ensures
        r == composed(first, second),
{
    first * second
}

/// `geometric_transformations::warp_into`: draws the sprite into the canvas
/// through the transform; canvas pixels whose origin lies outside the sprite
/// become `background`. The canvas keeps its size. The outside function
/// panics on a canvas without columns, which the precondition excludes.
#[verifier::external_body]
pub(crate) fn warp_into(
    sprite: &Raster,
    transform: &Projection,
    interpolation: Interpolation,
    background: [u8; 4],
    canvas: &mut Raster,
)
    requires
        raster_width(*old(canvas)) > 0,
    ensures
        *final(canvas) == warped(*sprite, *transform, interpolation, background@, *old(canvas)),
        raster_width(*final(canvas)) == raster_width(*old(canvas)),
        raster_height(*final(canvas)) == raster_height(*old(canvas)),
{
    imageproc::geometric_transformations::warp_into(
        &sprite.inner,
        transform,
        interpolation,
        image::Rgba(background),
        &mut canvas.inner,
    );
}

/// `imageops::resize`: the picture resampled to `width` by `height`. On
/// its way the picture is held at its own width, the new height and sixteen
/// bytes to the pixel; the outside function panics where that would be
/// longer than a vector can be, which the precondition excludes.
#[verifier::external_body]
pub(crate) fn resize(picture: &Raster, width: u32, height: u32, filter: FilterType) -> (r: Raster)
    requires
        width > 0,
        height > 0,
        16 * raster_width(*picture) * height <= isize::MAX,
        4 * width * height <= isize::MAX,
    ensures
        r == resized(*picture, width, height, filter),
        raster_width(r) == width,
        raster_height(r) == height,
{
    Raster { inner: image::imageops::resize(&picture.inner, width, height, filter) }
}

/// Whether a picture of the given width and height has a pixel in column
/// `px` and row `py`.
pub open spec fn within(size: (u32, u32), px: u32, py: u32) -> bool {
    let (width, height) = size;
    px < width && py < height
}

/// Whether the pixel in column `px` and row `py` lies under a picture of the
/// given size whose top left corner is at `(x, y)`.
pub open spec fn covers(x: int, y: int, width: int, height: int, px: int, py: int) -> bool {
    x <= px < x + width && y <= py < y + height
}

/// `imageops::overlay`: blends `top` over `bottom` with the top left corner
/// of `top` at `(x, y)`; what falls outside `bottom` is dropped, `bottom`
/// keeps its size, and its pixels that do not lie under `top` stay as they
/// are.
#[verifier::external_body]
pub(crate) fn overlay(bottom: &mut DynamicImage, top: &Raster, x: i64, y: i64)
    ensures
        *final(bottom) == overlaid(*old(bottom), *top, x, y),
        dimensions_of(*final(bottom)) == dimensions_of(*old(bottom)),
        forall|px: u32, py: u32|
            within(dimensions_of(*old(bottom)), px, py) && !covers(
                x as int,
                y as int,
                raster_width(*top) as int,
                raster_height(*top) as int,
                px as int,
                py as int,
            ) ==> #[trigger] picture_pixel(*final(bottom), px, py) == picture_pixel(
                *old(bottom),
                px,
                py,
            ),
{
    image::imageops::overlay(bottom, &top.inner, x, y);
}

} // verus!
