use ciya_lib::errors::Error;
use ciya_lib::projector::{
    canvas_of, is_smile, proj_from_ctrl_pts, Canvas, Emotion, ProjectionStrategy, Projector,
};
use ciya_lib::scalar::Scalar;
use ciya_lib::types::{ControlPoints, Point};
use image::{DynamicImage, GenericImageView, Rgba, RgbaImage};

const RED: Rgba<u8> = Rgba([255, 0, 0, 255]);
const GREEN: Rgba<u8> = Rgba([0, 255, 0, 255]);
const BLUE: Rgba<u8> = Rgba([0, 0, 255, 255]);
const WHITE: Rgba<u8> = Rgba([255, 255, 255, 255]);
const BLACK: Rgba<u8> = Rgba([0, 0, 0, 255]);

fn frac(numer: i64, denom: i64) -> Scalar {
    Scalar::new(numer, denom)
}

fn at(x: i64, y: i64) -> Point<Scalar> {
    Point::new(Scalar::from_int(x), Scalar::from_int(y))
}

fn quad(p1: (i64, i64), p2: (i64, i64), p3: (i64, i64), p4: (i64, i64)) -> ControlPoints<Scalar> {
    ControlPoints::new(at(p1.0, p1.1), at(p2.0, p2.1), at(p3.0, p3.1), at(p4.0, p4.1))
}

fn diamond() -> ControlPoints<Scalar> {
    quad((0, 64), (50, 0), (100, 64), (50, 128))
}

fn is_at(p: &Point<Scalar>, x: (i64, i64), y: (i64, i64)) -> bool {
    p.x == frac(x.0, x.1) && p.y == frac(y.0, y.1)
}

/// A sprite of 360 by 400 in four colours: red and green above, blue and
/// white below.
fn sprite() -> DynamicImage {
    DynamicImage::ImageRgba8(RgbaImage::from_fn(360, 400, |x, y| match (x < 180, y < 200) {
        (true, true) => RED,
        (false, true) => GREEN,
        (true, false) => BLUE,
        (false, false) => WHITE,
    }))
}

fn black(width: u32, height: u32) -> DynamicImage {
    DynamicImage::ImageRgba8(RgbaImage::from_pixel(width, height, BLACK))
}

fn math_error(r: Result<DynamicImage, Error>) -> String {
    match r {
        Err(Error::MathError(words)) => words,
        Err(other) => panic!("another error: {}", other.to_string()),
        Ok(_) => panic!("a picture"),
    }
}

#[test]
fn a_symmetric_mouth_smiles() {
    assert_eq!(is_smile(&diamond()), Some(true));
}

#[test]
fn a_mouth_that_hangs_lower_than_it_rises_smiles() {
    // crossing at (50, 40): 40 up to the top, 60 down to the bottom
    assert_eq!(is_smile(&quad((0, 40), (50, 0), (100, 40), (50, 100))), Some(true));
}

#[test]
fn a_mouth_that_rises_higher_than_it_hangs_cries() {
    // crossing at (50, 60): 60 up to the top, 40 down to the bottom
    assert_eq!(is_smile(&quad((0, 60), (50, 0), (100, 60), (50, 100))), Some(false));
}

#[test]
fn a_mouth_without_crossing_neither_smiles_nor_cries() {
    assert_eq!(is_smile(&quad((0, 0), (0, 1), (1, 0), (1, 1))), None);
    let mut q = diamond();
    q.p3.x = Scalar::undefined();
    assert_eq!(is_smile(&q), None);
}

#[test]
fn plain_fit_pairs_the_sprite_outline_with_the_enlarged_mouth() {
    let projector = Projector::new(&sprite());
    let (source, target) =
        projector.calc_ctrl_pts(&diamond(), ProjectionStrategy::Naive).unwrap();
    assert!(is_at(&source.p1, (0, 1), (200, 1)));
    assert!(is_at(&source.p2, (180, 1), (0, 1)));
    assert!(is_at(&source.p3, (360, 1), (200, 1)));
    assert!(is_at(&source.p4, (180, 1), (400, 1)));
    assert!(is_at(&target.p1, (-15, 1), (64, 1)));
    assert!(is_at(&target.p2, (50, 1), (-96, 5)));
    assert!(is_at(&target.p3, (115, 1), (64, 1)));
    assert!(is_at(&target.p4, (50, 1), (736, 5)));
}

#[test]
fn plain_fit_centres_the_corners_before_it_enlarges() {
    let projector = Projector::new(&sprite());
    let mouth = quad((10, 40), (30, 20), (60, 44), (34, 70));
    let (_, target) = projector.calc_ctrl_pts(&mouth, ProjectionStrategy::Naive).unwrap();
    assert!(is_at(&target.p1, (265, 46), (983, 23)));
    assert!(is_at(&target.p2, (633, 23), (25, 2)));
    assert!(is_at(&target.p3, (3255, 46), (5513, 115)));
    assert!(is_at(&target.p4, (3763, 115), (155, 2)));
}

#[test]
fn fit_along_the_lips_reads_the_ellipse() {
    let projector = Projector::new(&sprite());
    let (source, target) = projector
        .calc_ctrl_pts(&diamond(), ProjectionStrategy::RespectEdge { smile: true })
        .unwrap();
    // the crossing halves the mouth: y = 100, d = sqrt(3/4) on the grid
    assert!(is_at(&source.p1, (101147445, 4194304), (100, 1)));
    assert!(is_at(&source.p2, (180, 1), (0, 1)));
    assert!(is_at(&source.p3, (1408801995, 4194304), (100, 1)));
    assert!(is_at(&source.p4, (180, 1), (400, 1)));
    assert!(is_at(&target.p1, (-15, 1), (64, 1)));
    assert!(is_at(&target.p2, (50, 1), (-96, 5)));
    assert!(is_at(&target.p3, (115, 1), (64, 1)));
    assert!(is_at(&target.p4, (50, 1), (736, 5)));
}

#[test]
fn fit_along_the_lips_reads_the_ellipse_from_its_other_end_for_a_cry() {
    let projector = Projector::new(&sprite());
    let mouth = quad((10, 40), (30, 20), (60, 44), (34, 70));
    let (smile, _) = projector
        .calc_ctrl_pts(&mouth, ProjectionStrategy::RespectEdge { smile: true })
        .unwrap();
    let (cry, target) = projector
        .calc_ctrl_pts(&mouth, ProjectionStrategy::RespectEdge { smile: false })
        .unwrap();
    assert!(is_at(&smile.p1, (75093255, 4194304), (2000, 23)));
    assert!(is_at(&smile.p3, (1434856185, 4194304), (2000, 23)));
    assert!(is_at(&cry.p1, (66082185, 2097152), (2000, 23)));
    assert!(is_at(&cry.p3, (688892535, 2097152), (2000, 23)));
    assert!(is_at(&cry.p2, (180, 1), (0, 1)));
    assert!(is_at(&cry.p4, (180, 1), (400, 1)));
    assert!(is_at(&target.p1, (80, 23), (908, 23)));
    assert!(is_at(&target.p2, (678, 23), (310, 23)));
    assert!(is_at(&target.p3, (1575, 23), (5138, 115)));
    assert!(is_at(&target.p4, (3988, 115), (1805, 23)));
}

#[test]
fn a_level_mouth_has_no_fit_along_the_lips() {
    let projector = Projector::new(&sprite());
    let level = quad((0, 60), (40, 64), (100, 70), (60, 64));
    assert!(projector
        .calc_ctrl_pts(&level, ProjectionStrategy::RespectEdge { smile: true })
        .is_none());
    assert!(projector.calc_ctrl_pts(&level, ProjectionStrategy::Naive).is_some());
}

#[test]
fn a_mouth_without_crossing_has_no_fit() {
    let projector = Projector::new(&sprite());
    let parallel = quad((0, 0), (0, 1), (1, 0), (1, 1));
    assert!(projector.calc_ctrl_pts(&parallel, ProjectionStrategy::Naive).is_none());
    assert!(projector
        .calc_ctrl_pts(&parallel, ProjectionStrategy::RespectEdge { smile: false })
        .is_none());
}

#[test]
fn transform_comes_with_the_box_of_the_target() {
    let source = quad((0, 200), (180, 0), (360, 200), (180, 400));
    let (lt, rb, _) = proj_from_ctrl_pts(&source, &diamond()).unwrap();
    assert!(is_at(&lt, (-4, 1), (-4, 1)));
    assert!(is_at(&rb, (104, 1), (132, 1)));
}

#[test]
fn no_transform_takes_a_line_to_a_mouth() {
    let line = quad((0, 0), (1, 0), (2, 0), (3, 0));
    assert!(proj_from_ctrl_pts(&line, &diamond()).is_none());
}

#[test]
fn no_transform_where_the_target_has_no_crossing() {
    let source = quad((0, 200), (180, 0), (360, 200), (180, 400));
    let parallel = quad((0, 0), (0, 1), (1, 0), (1, 1));
    assert!(proj_from_ctrl_pts(&source, &parallel).is_none());
    let mut undefined = diamond();
    undefined.p1.y = Scalar::undefined();
    assert!(proj_from_ctrl_pts(&source, &undefined).is_none());
    assert!(proj_from_ctrl_pts(&undefined, &diamond()).is_none());
}

#[test]
fn canvas_rounds_size_and_corner_towards_zero() {
    let lt = Point::new(frac(-19, 1), frac(-116, 5));
    let rb = Point::new(frac(119, 1), frac(756, 5));
    assert_eq!(
        canvas_of(&lt, &rb, 1),
        Some(Canvas { left: -19, top: -23, width: 138, height: 174 })
    );
    assert_eq!(
        canvas_of(&lt, &rb, 8),
        Some(Canvas { left: -19, top: -23, width: 138, height: 174 })
    );
}

#[test]
fn canvas_needs_a_column_and_a_row() {
    let lt = at(10, 10);
    assert_eq!(canvas_of(&lt, &Point::new(frac(21, 2), frac(20, 1)), 1), None);
    assert_eq!(canvas_of(&lt, &Point::new(frac(20, 1), frac(21, 2)), 1), None);
    assert_eq!(canvas_of(&lt, &at(5, 20), 1), None);
    assert_eq!(
        canvas_of(&lt, &at(11, 11), 1),
        Some(Canvas { left: 10, top: 10, width: 1, height: 1 })
    );
}

#[test]
fn canvas_must_fit_when_scaled() {
    let lt = at(0, 0);
    let rb = at(1 << 30, 8);
    assert!(canvas_of(&lt, &rb, 3).is_some());
    assert_eq!(canvas_of(&lt, &rb, 4), None);
    assert_eq!(canvas_of(&lt, &at(1 << 32, 8), 1), None);
    assert_eq!(canvas_of(&Point::new(Scalar::undefined(), frac(0, 1)), &rb, 1), None);
}

#[test]
fn end_to_end_on_a_symmetric_mouth() {
    let projector = Projector::new(&sprite());
    let out = projector.project(black(200, 200), diamond(), Emotion::Auto, 1).unwrap();
    assert_eq!(out.dimensions(), (200, 200));
    // the canvas of 138 by 174 lies at (-19, -23); the crossing of the mouth
    // meets the sprite at (180, 100)
    assert_eq!(out.get_pixel(30, 50), RED);
    assert_eq!(out.get_pixel(70, 50), GREEN);
    assert_eq!(out.get_pixel(30, 110), BLUE);
    assert_eq!(out.get_pixel(70, 110), WHITE);
    assert_eq!(out.get_pixel(199, 199), BLACK);
    assert_eq!(out.get_pixel(130, 64), BLACK);
}

#[test]
fn a_forced_smile_is_drawn_as_the_found_one() {
    let projector = Projector::new(&sprite());
    let auto = projector.project(black(200, 200), diamond(), Emotion::Auto, 1).unwrap();
    let smile = projector.project(black(200, 200), diamond(), Emotion::Smile, 1).unwrap();
    assert_eq!(auto.to_rgba8(), smile.to_rgba8());
}

#[test]
fn a_cry_is_drawn_upside_down() {
    let projector = Projector::new(&sprite());
    let out = projector.project(black(200, 200), diamond(), Emotion::Cry, 1).unwrap();
    assert_eq!(out.dimensions(), (200, 200));
    assert_eq!(out.get_pixel(30, 50), BLUE);
    assert_eq!(out.get_pixel(70, 50), WHITE);
    assert_eq!(out.get_pixel(30, 110), RED);
    assert_eq!(out.get_pixel(70, 110), GREEN);
    assert_eq!(out.get_pixel(199, 199), BLACK);
}

#[test]
fn a_found_cry_is_drawn_upside_down() {
    let projector = Projector::new(&sprite());
    let mouth = quad((0, 60), (50, 0), (100, 60), (50, 100));
    let auto = projector.project(black(200, 200), mouth.clone(), Emotion::Auto, 1).unwrap();
    let cry = projector.project(black(200, 200), mouth.clone(), Emotion::Cry, 1).unwrap();
    let smile = projector.project(black(200, 200), mouth, Emotion::Smile, 1).unwrap();
    assert_eq!(auto.to_rgba8(), cry.to_rgba8());
    assert_ne!(auto.to_rgba8(), smile.to_rgba8());
}

fn near(found: Rgba<u8>, wanted: Rgba<u8>) -> bool {
    (0..4).all(|c| (found.0[c] as i32 - wanted.0[c] as i32).abs() <= 2)
}

#[test]
fn antialiasing_keeps_the_picture() {
    let projector = Projector::new(&sprite());
    let out = projector.project(black(200, 200), diamond(), Emotion::Auto, 4).unwrap();
    assert_eq!(out.dimensions(), (200, 200));
    assert!(near(out.get_pixel(30, 50), RED));
    assert!(near(out.get_pixel(70, 50), GREEN));
    assert!(near(out.get_pixel(30, 110), BLUE));
    assert!(near(out.get_pixel(70, 110), WHITE));
    assert_eq!(out.get_pixel(199, 199), BLACK);
}

#[test]
fn a_level_mouth_is_drawn_by_the_plain_fit() {
    let projector = Projector::new(&sprite());
    let level = quad((0, 60), (40, 64), (100, 70), (60, 64));
    assert_eq!(level.is_convex(), Some(false));
    let out = projector.project(black(200, 200), level, Emotion::Auto, 1).unwrap();
    assert_eq!(out.dimensions(), (200, 200));
    assert_eq!(out.get_pixel(10, 60), RED);
    assert_eq!(out.get_pixel(20, 60), BLUE);
    assert_eq!(out.get_pixel(100, 100), BLACK);
}

#[test]
fn the_plain_fit_steps_in_where_the_lips_give_nothing() {
    let projector = Projector::new(&sprite());
    // convex, but the crossing lies five mouth heights above the top: the
    // ellipse has no point there
    let mouth = quad((-20, 50), (50, 100), (30, 50), (60, 110));
    assert_eq!(mouth.is_convex(), Some(true));
    assert_eq!(is_smile(&mouth), Some(true));
    assert!(projector
        .calc_ctrl_pts(&mouth, ProjectionStrategy::RespectEdge { smile: true })
        .is_none());
    let out = projector.project(black(200, 200), mouth, Emotion::Auto, 1).unwrap();
    assert_eq!(out.dimensions(), (200, 200));
    assert_eq!(out.get_pixel(50, 102), GREEN);
    assert_eq!(out.get_pixel(150, 150), BLACK);
}

#[test]
fn an_undefined_coordinate_is_a_math_error() {
    let projector = Projector::new(&sprite());
    for k in 0..8 {
        let mut mouth = diamond();
        match k {
            0 => mouth.p1.x = Scalar::undefined(),
            1 => mouth.p1.y = Scalar::undefined(),
            2 => mouth.p2.x = Scalar::undefined(),
            3 => mouth.p2.y = Scalar::undefined(),
            4 => mouth.p3.x = Scalar::undefined(),
            5 => mouth.p3.y = Scalar::undefined(),
            6 => mouth.p4.x = Scalar::undefined(),
            _ => mouth.p4.y = Scalar::undefined(),
        }
        assert_eq!(mouth.is_convex(), None);
        let r = projector.project(black(50, 50), mouth, Emotion::Auto, 1);
        assert_eq!(math_error(r), "invalid control points");
    }
}

#[test]
fn parallel_diagonals_are_a_math_error() {
    let projector = Projector::new(&sprite());
    let r = projector.project(
        black(50, 50),
        quad((0, 0), (0, 10), (10, 0), (10, 10)),
        Emotion::Smile,
        1,
    );
    assert_eq!(math_error(r), "invalid control points");
}

#[test]
fn a_mouth_on_a_line_has_no_projection() {
    let projector = Projector::new(&sprite());
    // the diagonals cross, but three corners of the target lie on one line
    let r = projector.project(
        black(50, 50),
        quad((0, 0), (10, 0), (10, 10), (0, 0)),
        Emotion::Auto,
        1,
    );
    assert_eq!(math_error(r), "unable to compute projection matrix");
}

#[test]
fn a_canvas_beyond_reach_is_a_math_error() {
    let projector = Projector::new(&sprite());
    let far = 1i64 << 40;
    let r = projector.project(
        black(50, 50),
        quad((0, far / 2), (far / 2, 0), (far, far / 2), (far / 2, far)),
        Emotion::Auto,
        1,
    );
    assert_eq!(math_error(r), "canvas out of range");
}

#[test]
fn a_projector_is_made_of_a_sprite_that_fits() {
    let projector = Projector::try_new(&sprite()).unwrap();
    let out = projector.project(black(200, 200), diamond(), Emotion::Auto, 1).unwrap();
    assert_eq!(out.get_pixel(30, 50), RED);
}

#[test]
fn pixels_beside_the_canvas_stay() {
    // a picture that is not of one colour: a pixel's colour tells its place
    let picture = DynamicImage::ImageRgba8(RgbaImage::from_fn(200, 200, |x, y| {
        Rgba([x as u8, y as u8, (x ^ y) as u8, 255])
    }));
    let projector = Projector::new(&sprite());
    let out = projector.project(picture.clone(), diamond(), Emotion::Auto, 2).unwrap();
    // the canvas of 138 by 174 lies at (-19, -23)
    for y in 0..200u32 {
        for x in 0..200u32 {
            if x >= 119 || y >= 151 {
                assert_eq!(out.get_pixel(x, y), picture.get_pixel(x, y));
            }
        }
    }
    assert_ne!(out.get_pixel(50, 64), picture.get_pixel(50, 64));
}
