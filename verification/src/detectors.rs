//! Where the control points come from.
//!
//! A detector finds faces and takes the largest, looks for the landmarks of
//! the mouth in a region around it, takes each landmark where its heatmap
//! peaks, and carries what it found back into the picture. The detector
//! itself is not part of this crate; the steps of plain arithmetic around
//! it are.
use crate::errors::Result;
use crate::scalar::Scalar;
use crate::types::{ControlPoints, Point, Rectangle};
use image::DynamicImage;
use vstd::prelude::*;

verus! {

/// Something that finds a mouth in a picture: its left corner, top, right
/// corner and bottom, in the picture's pixels.
pub trait MouthDetectorTrait {
    /// Whether `found` is an answer that this detector may give for
    /// `image`. A detector says here what it promises of its answers; one
    /// that says nothing admits every answer.
    open spec fn may_find(&self, image: DynamicImage, found: Result<ControlPoints<Scalar>>) -> bool {
        true
    }

    fn detect(&self, image: &DynamicImage) -> (found: Result<ControlPoints<Scalar>>)
        ensures
            self.may_find(*image, found),
    ;
}

/// The quotient of two integers, rounded towards zero.
pub open spec fn quotient(a: int, b: int) -> int {
    if a >= 0 {
        a / b
    } else {
        -((-a) / b)
    }
}

/// The region of interest around a face `(x, y, w, h)` in a picture of the
/// given width: the face widened by an eighth of its width to either side
/// and by a quarter of its height upwards, cut off at the picture's left,
/// top and right edge.
pub open spec fn roi_of(universe_width: int, face: Rectangle<i32>) -> Rectangle<int> {
    let x = if face.x - quotient(face.w as int, 8) > 0 {
        face.x - quotient(face.w as int, 8)
    } else {
        0
    };
    let rx = if face.x + quotient(face.w * 9, 8) < universe_width {
        face.x + quotient(face.w * 9, 8)
    } else {
        universe_width
    };
    let y = if face.y - quotient(face.h as int, 4) > 0 {
        face.y - quotient(face.h as int, 4)
    } else {
        0
    };
    Rectangle { x, y, w: rx - x, h: face.y + face.h - y }
}

/// Whether the steps that lead to [`roi_of`] stay within 32-bit integers.
pub open spec fn roi_in_range(face: Rectangle<i32>) -> bool {
    &&& i32::MIN <= face.x - quotient(face.w as int, 8) <= i32::MAX
    &&& i32::MIN <= face.w * 9 <= i32::MAX
    &&& i32::MIN <= face.x + quotient(face.w * 9, 8) <= i32::MAX
    &&& i32::MIN <= face.y - quotient(face.h as int, 4) <= i32::MAX
    &&& i32::MIN <= face.y + face.h <= i32::MAX
}

/// The region of interest around a face; none where a step leaves the
/// 32-bit integers or the region's width or height would be negative.
pub fn face_to_roi(universe_width: i32, face: &Rectangle<i32>) -> (r: Option<Rectangle<u32>>)
    ensures
        r is Some <==> roi_in_range(*face) && roi_of(universe_width as int, *face).w >= 0 && roi_of(
            universe_width as int,
            *face,
        ).h >= 0,
        r is Some ==> {
            &&& r->0.x == roi_of(universe_width as int, *face).x
            &&& r->0.y == roi_of(universe_width as int, *face).y
            &&& r->0.w == roi_of(universe_width as int, *face).w
            &&& r->0.h == roi_of(universe_width as int, *face).h
        },
{
    let left = face.x.checked_sub(face.w / 8)?;
    let x = if left > 0 {
        left
    } else {
        0
    };
    let right = face.x.checked_add(face.w.checked_mul(9)? / 8)?;
    let rx = if right < universe_width {
        right
    } else {
        universe_width
    };
    let up = face.y.checked_sub(face.h / 4)?;
    let y = if up > 0 {
        up
    } else {
        0
    };
    let by = face.y.checked_add(face.h)?;
    let w = rx.checked_sub(x)?;
    let h = by.checked_sub(y)?;
    if w < 0 || h < 0 {
        None
    } else {
        Some(Rectangle::new(x as u32, y as u32, w as u32, h as u32))
    }
}

/// The point `coord` of the region `from` carried into the region `to`:
/// each coordinate is scaled by the ratio of the regions' extents, rounded
/// down, and moved by the corner of `to`.
pub open spec fn rebased(coord: Point<u32>, from: Rectangle<u32>, to: Rectangle<u32>) -> Point<int> {
    Point {
        x: to.x + (coord.x * to.w) / (from.w as int),
        y: to.y + (coord.y * to.h) / (from.h as int),
    }
}

/// Carries a point of the region `from` into the region `to`; none where
/// `from` has no width or no height, or the point leaves the 32-bit
/// integers.
pub fn rebase(coord: Point<u32>, from: &Rectangle<u32>, to: &Rectangle<u32>) -> (r: Option<
    Point<u32>,
>)
    ensures
        r is Some <==> from.w != 0 && from.h != 0 && rebased(coord, *from, *to).x <= u32::MAX
            && rebased(coord, *from, *to).y <= u32::MAX,
        r is Some ==> r->0.x == rebased(coord, *from, *to).x && r->0.y == rebased(
            coord,
            *from,
            *to,
        ).y,
{
    if from.w == 0 || from.h == 0 {
        return None;
    }
    let x = to.x as u64 + scaled(coord.x, to.w, from.w);
    let y = to.y as u64 + scaled(coord.y, to.h, from.h);
    if x > u32::MAX as u64 || y > u32::MAX as u64 {
        None
    } else {
        Some(Point::new(x as u32, y as u32))
    }
}

/// `value * numer / denom`, rounded down.
fn scaled(value: u32, numer: u32, denom: u32) -> (r: u64)
    requires
        denom != 0,
    ensures
        r == (value * numer) / (denom as int),
        r <= 0xffff_ffff * 0xffff_ffff,
{
    assert(value * numer <= 0xffff_ffff * 0xffff_ffff) by (nonlinear_arith)
        requires
            value <= 0xffff_ffff,
            numer <= 0xffff_ffff,
    ;
    let product = value as u64 * numer as u64;
    assert(product / (denom as u64) <= product) by (nonlinear_arith)
        requires
            denom >= 1,
    ;
    product / denom as u64
}

/// The area of a face.
pub open spec fn area_of(face: Rectangle<i32>) -> int {
    face.w * face.h
}

/// Whether `faces[i]` is the largest face: none has more area, and none
/// after it has as much.
pub open spec fn is_largest(faces: Seq<Rectangle<i32>>, i: int) -> bool {
    &&& 0 <= i < faces.len()
    &&& forall|j: int| 0 <= j < faces.len() ==> area_of(#[trigger] faces[j]) <= area_of(faces[i])
    &&& forall|j: int| i < j < faces.len() ==> area_of(#[trigger] faces[j]) < area_of(faces[i])
}

/// Which of the faces is the largest, and of equally large ones the last;
/// none where there is no face.
pub fn largest_face(faces: &Vec<Rectangle<i32>>) -> (r: Option<usize>)
    ensures
        match r {
            Some(i) => is_largest(faces@, i as int),
            None => faces@.len() == 0,
        },
{
    if faces.len() == 0 {
        return None;
    }
    let mut best: usize = 0;
    let mut best_area: i64 = area(&faces[0]);
    let mut n: usize = 1;
    while n < faces.len()
        invariant
            1 <= n <= faces@.len(),
            best < n,
            best_area == area_of(faces@[best as int]),
            forall|j: int| 0 <= j < n ==> area_of(#[trigger] faces@[j]) <= best_area,
            forall|j: int| best < j < n ==> area_of(#[trigger] faces@[j]) < best_area,
        decreases faces@.len() - n,
    {
        let found = area(&faces[n]);
        if found >= best_area {
            best = n;
            best_area = found;
        }
        n += 1;
    }
    Some(best)
}

/// The area of a face, as a number that holds it.
fn area(face: &Rectangle<i32>) -> (r: i64)
    ensures
        r == area_of(*face),
{
    assert(-0x8000_0000 * 0x8000_0000 <= face.w * face.h <= 0x8000_0000 * 0x8000_0000)
        by (nonlinear_arith)
        requires
            -0x8000_0000 <= face.w <= 0x7fff_ffff,
            -0x8000_0000 <= face.h <= 0x7fff_ffff,
    ;
    face.w as i64 * face.h as i64
}

/// Whether the heat at `(row, col)` is the peak of `rows`: nothing is
/// hotter, and nothing that comes later, row by row, is as hot.
pub open spec fn is_peak(rows: Seq<Vec<i64>>, row: int, col: int) -> bool {
    &&& 0 <= row < rows.len()
    &&& 0 <= col < rows[row]@.len()
    &&& forall|r: int, c: int|
        0 <= r < rows.len() && 0 <= c < rows[r]@.len() ==> #[trigger] rows[r]@[c]
            <= rows[row]@[col]
    &&& forall|r: int, c: int|
        0 <= r < rows.len() && 0 <= c < rows[r]@.len() && (r > row || (r == row && c > col))
            ==> #[trigger] rows[r]@[c] < rows[row]@[col]
}

/// Where a heatmap peaks, as column and row; none where the heatmap has no
/// row or a row that is empty. The heat is given by numbers that are
/// ordered as the heat is.
pub fn argmax(rows: &Vec<Vec<i64>>) -> (r: Option<(usize, usize)>)
    ensures
        r is None <==> rows@.len() == 0 || exists|r: int|
            0 <= r < rows@.len() && (#[trigger] rows@[r])@.len() == 0,
        match r {
            Some((col, row)) => is_peak(rows@, row as int, col as int),
            None => true,
        },
{
    if rows.len() == 0 || rows[0].len() == 0 {
        return None;
    }
    let mut best: (usize, usize) = (0, 0);
    let mut heat: i64 = rows[0][0];
    let mut y: usize = 0;
    while y < rows.len()
        invariant
            y <= rows@.len(),
            rows@.len() > 0,
            rows@[0]@.len() > 0,
            forall|r: int| 0 <= r < y ==> (#[trigger] rows@[r])@.len() > 0,
            seen_peak(rows@, y as int, 0, best, heat),
        decreases rows@.len() - y,
    {
        let row = &rows[y];
        if row.len() == 0 {
            return None;
        }
        let mut x: usize = 0;
        while x < row.len()
            invariant
                y < rows@.len(),
                row@ == rows@[y as int]@,
                x <= row@.len(),
                seen_peak(rows@, y as int, x as int, best, heat),
            decreases row@.len() - x,
        {
            if row[x] >= heat {
                best = (x, y);
                heat = row[x];
            }
            x += 1;
        }
        y += 1;
    }
    Some(best)
}

/// Whether `best`, as column and row, is the peak of what comes before
/// `(y, x)`, row by row, and `heat` the heat there. Before anything was
/// seen, the first place stands in.
spec fn seen_peak(rows: Seq<Vec<i64>>, y: int, x: int, best: (usize, usize), heat: i64)
    -> bool {
    let (col, row) = best;
    &&& 0 <= row < rows.len()
    &&& 0 <= col < rows[row as int]@.len()
    &&& heat == rows[row as int]@[col as int]
    &&& row < y || (row == y && col < x) || (row == 0 && col == 0 && y == 0 && x == 0)
    &&& forall|r: int, c: int|
        0 <= r < rows.len() && 0 <= c < rows[r]@.len() && (r < y || (r == y && c < x))
            ==> #[trigger] rows[r]@[c] <= heat
    &&& forall|r: int, c: int|
        0 <= r < rows.len() && 0 <= c < rows[r]@.len() && (r < y || (r == y && c < x)) && (r
            > row || (r == row && c > col)) ==> #[trigger] rows[r]@[c] < heat
}

} // verus!
