//! From a picture to the picture with the sprite on it.
use crate::detectors::MouthDetectorTrait;
use crate::errors::{Error, Result};
use crate::imaging::dimensions_of;
pub use crate::projector::Emotion;
use crate::projector::{canvas_in, keeps_outside, projected, Projector};
use crate::scalar::Scalar;
use crate::types::ControlPoints;
use image::DynamicImage;
use vstd::prelude::*;

verus! {

/// A detector of mouths together with a projector of sprites.
pub struct Ciyafier {
    detector: Box<dyn MouthDetectorTrait>,
    projector: Projector,
}

impl Ciyafier {
    /// The projector that draws.
    pub closed spec fn projector(&self) -> Projector {
        self.projector
    }

    #[must_use]
    pub fn new(detector: Box<dyn MouthDetectorTrait>, projector: Projector) -> (r: Ciyafier)
        ensures
            r.projector() == projector,
    {
        Ciyafier { detector, projector }
    }

    /// What becomes of `image` once the detector has answered: its error, or
    /// the sprite drawn over the mouth that it found. What of `image` does
    /// not lie under the sprite's canvas stays as it is.
    pub fn draw(
        &self,
        image: DynamicImage,
        detected: Result<ControlPoints<Scalar>>,
        emotion: Emotion,
        antialias_scale: u32,
    ) -> (r: Result<DynamicImage>)
        requires
            antialias_scale >= 1,
        ensures
            match detected {
                Ok(control_points) => match projected(
                    self.projector().sprite(),
                    image,
                    control_points@,
                    emotion,
                    antialias_scale,
                ) {
                    Ok(picture) => r == Ok::<DynamicImage, Error>(picture),
                    Err(words) => r matches Err(Error::MathError(text)) && text@ == words,
                },
                Err(e) => r == Err::<DynamicImage, Error>(e),
            },
            r is Ok ==> dimensions_of(r->Ok_0) == dimensions_of(image),
            r is Ok ==> detected is Ok && canvas_in(
                self.projector().sprite(),
                detected->Ok_0@,
                antialias_scale,
            ) is Some && keeps_outside(
                image,
                r->Ok_0,
                canvas_in(self.projector().sprite(), detected->Ok_0@, antialias_scale)->0,
            ),
    {
        match detected {
            Ok(control_points) => self.projector.project(
                image,
                control_points,
                emotion,
                antialias_scale,
            ),
            Err(e) => Err(e),
        }
    }

    /// Finds the mouth in `image` and draws the sprite over it: the result is
    /// what [`Ciyafier::draw`] makes of an answer of the detector for `image`.
    pub fn ciya(&self, image: DynamicImage, emotion: Emotion, antialias_scale: u32) -> (r: Result<
        DynamicImage,
    >)
        requires
            antialias_scale >= 1,
        ensures
            exists|found: Result<ControlPoints<Scalar>>|
                self.may_find(image, found) && #[trigger] self.drawn(
                    image,
                    found,
                    emotion,
                    antialias_scale,
                    r,
                ),
            r is Ok ==> dimensions_of(r->Ok_0) == dimensions_of(image),
    {
        let detected = self.detector.detect(&image);
        let r = self.draw(image, detected, emotion, antialias_scale);
        assert(self.may_find(image, detected) && self.drawn(
            image,
            detected,
            emotion,
            antialias_scale,
            r,
        ));
        r
    }

    /// Whether `found` is an answer that the detector of this ciyafier may
    /// give for `image`.
    pub closed spec fn may_find(
        &self,
        image: DynamicImage,
        found: Result<ControlPoints<Scalar>>,
    ) -> bool {
        self.detector.may_find(image, found)
    }

    /// Whether `r` is what becomes of `image` once the detector has answered
    /// `found`: the detector's error, or the outcome of drawing the sprite
    /// over the mouth that it found.
    pub open spec fn drawn(
        &self,
        image: DynamicImage,
        found: Result<ControlPoints<Scalar>>,
        emotion: Emotion,
        antialias_scale: u32,
        r: Result<DynamicImage>,
    ) -> bool {
        match found {
            Ok(control_points) => match projected(
                self.projector().sprite(),
                image,
                control_points@,
                emotion,
                antialias_scale,
            ) {
                Ok(picture) => r == Ok::<DynamicImage, Error>(picture),
                Err(words) => r matches Err(Error::MathError(text)) && text@ == words,
            },
            Err(e) => r == Err::<DynamicImage, Error>(e),
        }
    }
}

} // verus!
