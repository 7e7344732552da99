//! The camera's parameters, gathered one at a time.

use vstd::prelude::*;
use crate::scalar::Scalar;
use crate::util::{Point3, Vec3};

verus! {

/// A complete set of camera parameters.
#[derive(Clone, Copy, Debug, PartialEq, Eq, Structural)]
pub struct CameraSettings {
    /// The eye.
    pub lookfrom: Point3,
    /// The point that the camera looks at.
    pub lookat: Point3,
    /// Which way is up.
    pub vup: Vec3,
    /// The vertical field of view, in degrees.
    pub vfov: Scalar,
    /// The width of the picture divided by its height.
    pub aspect_ratio: Scalar,
    /// The diameter of the lens; 0 for a pinhole.
    pub aperture: Scalar,
    /// The distance from the eye to the plane that is in focus.
    pub focus_dist: Scalar,
}

/// Camera parameters as far as they have been set.
#[derive(Clone, Copy, Debug, PartialEq, Eq, Structural)]
pub struct CameraBuilder {
    pub lookfrom: Option<Point3>,
    pub lookat: Option<Point3>,
    pub vup: Option<Vec3>,
    pub vfov: Option<Scalar>,
    pub aspect_ratio: Option<Scalar>,
    pub aperture: Option<Scalar>,
    pub focus_dist: Option<Scalar>,
}

impl CameraBuilder {
    /// Every parameter has been set.
    pub open spec fn is_complete(self) -> bool {
        &&& self.lookfrom is Some
        &&& self.lookat is Some
        &&& self.vup is Some
        &&& self.vfov is Some
        &&& self.aspect_ratio is Some
        &&& self.aperture is Some
        &&& self.focus_dist is Some
    }

    /// The parameters of a complete builder.
    pub open spec fn settings(self) -> CameraSettings
        recommends
            self.is_complete(),
    {
        CameraSettings {
            lookfrom: self.lookfrom->0,
            lookat: self.lookat->0,
            vup: self.vup->0,
            vfov: self.vfov->0,
            aspect_ratio: self.aspect_ratio->0,
            aperture: self.aperture->0,
            focus_dist: self.focus_dist->0,
        }
    }

    /// A builder with nothing set.
    pub fn new() -> (b: CameraBuilder)
        ensures
            b == (CameraBuilder {
                lookfrom: None,
                lookat: None,
                vup: None,
                vfov: None,
                aspect_ratio: None,
                aperture: None,
                focus_dist: None,
            }),
    {
        CameraBuilder {
            lookfrom: None,
            lookat: None,
            vup: None,
            vfov: None,
            aspect_ratio: None,
            aperture: None,
            focus_dist: None,
        }
    }

    /// Sets the eye. Like every setter, this leaves the other parameters as
    /// they were and hands the builder back for the next call.
    pub fn lookfrom(&mut self, lookfrom: Point3) -> (b: &mut Self)
        ensures
            *b == (CameraBuilder { lookfrom: Some(lookfrom), ..*old(self) }),
            *final(self) == *final(b),
    {
        self.lookfrom = Some(lookfrom);
        self
    }

    /// Sets the point that the camera looks at.
    pub fn lookat(&mut self, lookat: Point3) -> (b: &mut Self)
        ensures
            *b == (CameraBuilder { lookat: Some(lookat), ..*old(self) }),
            *final(self) == *final(b),
    {
        self.lookat = Some(lookat);
        self
    }

    /// Sets which way is up.
    pub fn vup(&mut self, vup: Vec3) -> (b: &mut Self)
        ensures
            *b == (CameraBuilder { vup: Some(vup), ..*old(self) }),
            *final(self) == *final(b),
    {
        self.vup = Some(vup);
        self
    }

    /// Sets the vertical field of view, in degrees.
    pub fn vfov(&mut self, vfov: Scalar) -> (b: &mut Self)
        ensures
            *b == (CameraBuilder { vfov: Some(vfov), ..*old(self) }),
            *final(self) == *final(b),
    {
        self.vfov = Some(vfov);
        self
    }

    /// Sets the width of the picture divided by its height.
    pub fn aspect_ratio(&mut self, aspect_ratio: Scalar) -> (b: &mut Self)
        ensures
            *b == (CameraBuilder { aspect_ratio: Some(aspect_ratio), ..*old(self) }),
            *final(self) == *final(b),
    {
        self.aspect_ratio = Some(aspect_ratio);
        self
    }

    /// Sets the diameter of the lens.
    pub fn aperture(&mut self, aperture: Scalar) -> (b: &mut Self)
        ensures
            *b == (CameraBuilder { aperture: Some(aperture), ..*old(self) }),
            *final(self) == *final(b),
    {
        self.aperture = Some(aperture);
        self
    }

    /// Sets the distance to the plane that is in focus.
    pub fn focus_dist(&mut self, focus_dist: Scalar) -> (b: &mut Self)
        ensures
            *b == (CameraBuilder { focus_dist: Some(focus_dist), ..*old(self) }),
            *final(self) == *final(b),
    {
        self.focus_dist = Some(focus_dist);
        self
    }

    /// The complete set of parameters, or nothing while one is unset.
    pub fn build(&self) -> (r: Option<CameraSettings>)
        ensures
            r == if self.is_complete() {
                Some(self.settings())
            } else {
                None::<CameraSettings>
            },
    {
        Some(
            CameraSettings {
                lookfrom: self.lookfrom?,
                lookat: self.lookat?,
                vup: self.vup?,
                vfov: self.vfov?,
                aspect_ratio: self.aspect_ratio?,
                aperture: self.aperture?,
                focus_dist: self.focus_dist?,
            },
        )
    }
}

} // verus!
