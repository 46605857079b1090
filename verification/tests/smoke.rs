use ciya_lib::ciyafier::{Ciyafier, Emotion};
use ciya_lib::detectors::MouthDetectorTrait;
use ciya_lib::errors::{Error, Result};
use ciya_lib::projector::Projector;
use ciya_lib::scalar::Scalar;
use ciya_lib::types::{ControlPoints, Point};
use image::{DynamicImage, GenericImageView, Rgba, RgbaImage};

/// A detector that knows the answer.
struct Fixed(Option<[(i64, i64); 4]>);

impl MouthDetectorTrait for Fixed {
    fn detect(&self, _image: &DynamicImage) -> Result<ControlPoints<Scalar>> {
        let corners = self.0.ok_or(Error::NoneError)?;
        let points: Vec<Point<Scalar>> = corners
            .iter()
            .map(|c| Point::new(Scalar::from_int(c.0), Scalar::from_int(c.1)))
            .collect();
        Ok(ControlPoints::try_from(points).unwrap())
    }
}

fn sprite() -> DynamicImage {
    DynamicImage::ImageRgba8(RgbaImage::from_pixel(360, 400, Rgba([255, 0, 0, 255])))
}

fn picture() -> DynamicImage {
    DynamicImage::ImageRgba8(RgbaImage::from_pixel(320, 240, Rgba([0, 0, 0, 255])))
}

#[test]
fn smoke_test() {
    let detector = Box::new(Fixed(Some([(100, 120), (150, 100), (200, 120), (150, 160)])));
    let ciyafier = Ciyafier::new(detector, Projector::new(&sprite()));
    let image = ciyafier.ciya(picture(), Emotion::Auto, 8).unwrap();
    assert_eq!(image.dimensions(), (320, 240));
    assert_eq!(image.get_pixel(150, 120), Rgba([255, 0, 0, 255]));
    assert_eq!(image.get_pixel(5, 5), Rgba([0, 0, 0, 255]));
}

#[test]
fn a_failing_detector_fails_the_whole() {
    let ciyafier = Ciyafier::new(Box::new(Fixed(None)), Projector::new(&sprite()));
    let r = ciyafier.ciya(picture(), Emotion::Auto, 8);
    assert!(matches!(r, Err(Error::NoneError)));
}

#[test]
fn drawing_hands_the_detectors_error_on() {
    let ciyafier = Ciyafier::new(Box::new(Fixed(None)), Projector::new(&sprite()));
    let r = ciyafier.draw(picture(), Err(Error::CVError(String::from("x"))), Emotion::Cry, 1);
    assert!(matches!(r, Err(Error::CVError(words)) if words == "x"));
}

#[test]
fn drawing_uses_the_points_it_is_given() {
    let ciyafier = Ciyafier::new(Box::new(Fixed(None)), Projector::new(&sprite()));
    let found = Fixed(Some([(100, 120), (150, 100), (200, 120), (150, 160)])).detect(&picture());
    let out = ciyafier.draw(picture(), found, Emotion::Smile, 2).unwrap();
    assert_eq!(out.dimensions(), (320, 240));
    assert_eq!(out.get_pixel(150, 120), Rgba([255, 0, 0, 255]));
}
