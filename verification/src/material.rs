//! Materials, and what each of them decides when a ray meets it.

use vstd::prelude::*;
use crate::hittables::HitRecord;
use crate::scalar::{Scalar, ONE_BITS};
use crate::util::{near_zero, Color, Ray, Vec3};

verus! {

/// A diffuse surface.
#[derive(Clone, Copy, Debug, PartialEq, Eq, Structural)]
pub struct Lambertian {
    pub albedo: Color,
}

/// A metallic surface: a mirror when `fuzz` is 0, a blurred one above.
#[derive(Clone, Copy, Debug, PartialEq, Eq, Structural)]
pub struct Metal {
    pub albedo: Color,
    pub fuzz: Scalar,
}

/// A transparent surface with index of refraction `ir`.
#[derive(Clone, Copy, Debug, PartialEq, Eq, Structural)]
pub struct Dielectric {
    pub ir: Scalar,
}

/// The material of a primitive.
#[derive(Clone, Copy, Debug, PartialEq, Eq, Structural)]
pub enum Material {
    Lambertian(Lambertian),
    Metal(Metal),
    Dielectric(Dielectric),
}

/// What a material needs to know of a ray to scatter it.
#[derive(Clone, Copy, Debug, PartialEq, Eq, Structural)]
pub enum Incidence {
    /// For a diffuse surface: the normal plus a random unit vector.
    Diffuse { candidate: Vec3 },
    /// For a metallic surface: the reflection of the incoming direction, moved
    /// by the fuzz times a random point of the unit sphere, and the dot
    /// product of that with the normal.
    Mirror { direction: Vec3, facing: Scalar },
    /// For a transparent surface: the refraction ratio times the sine of the
    /// angle of incidence, the reflectance at that angle, a random number of
    /// [0, 1), and the directions of the reflected and of the refracted ray.
    Glass { bend: Scalar, reflectance: Scalar, draw: Scalar, reflected: Vec3, refracted: Vec3 },
}

/// White: the attenuation of a surface that takes nothing from the light.
pub open spec fn white() -> Color {
    Vec3 { x: Scalar { bits: ONE_BITS }, y: Scalar { bits: ONE_BITS }, z: Scalar { bits: ONE_BITS } }
}

impl Lambertian {
    /// A diffuse material of the given albedo.
    pub fn new(albedo: Color) -> (m: Material)
        ensures
            m == Material::Lambertian(Lambertian { albedo }),
    {
        Material::Lambertian(Lambertian { albedo })
    }

    /// Scatters a ray that hit the surface. `candidate` is the normal plus a
    /// random unit vector; where it is too close to zero to give a direction,
    /// the ray leaves along the normal. The attenuation is the albedo.
    pub fn scatter(&self, rec: &HitRecord, candidate: Vec3) -> (r: Option<(Color, Ray)>)
        ensures
            r == Some(
                (
                    self.albedo,
                    Ray {
                        orig: rec.p,
                        dir: if candidate.near_zero_spec() {
                            rec.normal
                        } else {
                            candidate
                        },
                    },
                ),
            ),
    {
        let mut scatter_direction = candidate;
        if near_zero(&scatter_direction) {
            scatter_direction = rec.normal;
        }
        Some((self.albedo, Ray::new(rec.p, scatter_direction)))
    }
}

impl Metal {
    /// A metallic material of the given albedo and fuzz.
    pub fn new(albedo: Color, fuzz: Scalar) -> (m: Material)
        ensures
            m == Material::Metal(Metal { albedo, fuzz }),
    {
        Material::Metal(Metal { albedo, fuzz })
    }

    /// Scatters a ray that hit the surface. `direction` is the reflection of the
    /// incoming direction, moved by `fuzz` times a random point of the unit
    /// sphere, and `facing` its dot product with the normal. The ray is
    /// absorbed unless `facing` is above zero: unless it leaves the surface.
    pub fn scatter(&self, rec: &HitRecord, direction: Vec3, facing: Scalar) -> (r: Option<
        (Color, Ray),
    >)
        ensures
            r == if (Scalar { bits: 0 }).lt_spec(facing) {
                Some((self.albedo, Ray { orig: rec.p, dir: direction }))
            } else {
                None
            },
    {
        if Scalar::zero().lt(facing) {
            Some((self.albedo, Ray::new(rec.p, direction)))
        } else {
            None
        }
    }
}

impl Dielectric {
    /// A transparent material of the given index of refraction.
    pub fn new(ir: Scalar) -> (m: Material)
        ensures
            m == Material::Dielectric(Dielectric { ir }),
    {
        Material::Dielectric(Dielectric { ir })
    }

    /// Total internal reflection: `bend`, the refraction ratio times the sine
    /// of the angle of incidence, is above 1, so that no refracted ray exists.
    pub open spec fn cannot_refract_spec(bend: Scalar) -> bool {
        (Scalar { bits: ONE_BITS }).lt_spec(bend)
    }

    /// Whether the ray is reflected: always under total internal reflection,
    /// else when the reflectance at this angle is above the random `draw`.
    pub open spec fn reflects(bend: Scalar, reflectance: Scalar, draw: Scalar) -> bool {
        Self::cannot_refract_spec(bend) || draw.lt_spec(reflectance)
    }

    /// The refraction ratio for a ray that hit the surface: `inverse`, which is
    /// 1 divided by the index of refraction, for a ray that enters through the
    /// front face, and the index itself for a ray that leaves.
    pub fn refraction_ratio(&self, rec: &HitRecord, inverse: Scalar) -> (ratio: Scalar)
        ensures
            ratio == if rec.front_face {
                inverse
            } else {
                self.ir
            },
    {
        if rec.front_face {
            inverse
        } else {
            self.ir
        }
    }

    /// Whether the surface can only reflect: then no random number decides.
    pub fn cannot_refract(bend: Scalar) -> (r: bool)
        ensures
            r == Self::cannot_refract_spec(bend),
    {
        Scalar::one().lt(bend)
    }

    /// Scatters a ray that hit the surface: along `reflected` where the ray is
    /// reflected, along `refracted` where not. Nothing is absorbed and the
    /// attenuation is white.
    pub fn scatter(
        &self,
        rec: &HitRecord,
        bend: Scalar,
        reflectance: Scalar,
        draw: Scalar,
        reflected: Vec3,
        refracted: Vec3,
    ) -> (r: Option<(Color, Ray)>)
        ensures
            r == Some(
                (
                    white(),
                    Ray {
                        orig: rec.p,
                        dir: if Self::reflects(bend, reflectance, draw) {
                            reflected
                        } else {
                            refracted
                        },
                    },
                ),
            ),
    {
        let attenuation = Vec3::new(Scalar::one(), Scalar::one(), Scalar::one());
        let direction = if Self::cannot_refract(bend) || draw.lt(reflectance) {
            reflected
        } else {
            refracted
        };
        Some((attenuation, Ray::new(rec.p, direction)))
    }
}

impl Material {
    /// What becomes of a ray that hit a surface of this material: the
    /// attenuation and the scattered ray, or nothing where the ray is
    /// absorbed. What is known of the ray must be what this kind of material
    /// asks for: with anything else the ray is absorbed.
    pub open spec fn scatter_spec(self, rec: HitRecord, incidence: Incidence) -> Option<
        (Color, Ray),
    > {
        match (self, incidence) {
            (Material::Lambertian(m), Incidence::Diffuse { candidate }) => Some(
                (
                    m.albedo,
                    Ray {
                        orig: rec.p,
                        dir: if candidate.near_zero_spec() {
                            rec.normal
                        } else {
                            candidate
                        },
                    },
                ),
            ),
            (Material::Metal(m), Incidence::Mirror { direction, facing }) => if (Scalar {
                bits: 0,
            }).lt_spec(facing) {
                Some((m.albedo, Ray { orig: rec.p, dir: direction }))
            } else {
                None
            },
            (
                Material::Dielectric(_),
                Incidence::Glass { bend, reflectance, draw, reflected, refracted },
            ) => Some(
                (
                    white(),
                    Ray {
                        orig: rec.p,
                        dir: if Dielectric::reflects(bend, reflectance, draw) {
                            reflected
                        } else {
                            refracted
                        },
                    },
                ),
            ),
            _ => None,
        }
    }

    /// Scatters a ray that hit a surface of this material.
    pub fn scatter(&self, rec: &HitRecord, incidence: &Incidence) -> (r: Option<(Color, Ray)>)
        ensures
            r == self.scatter_spec(*rec, *incidence),
    {
        match self {
            Material::Lambertian(m) => match incidence {
                Incidence::Diffuse { candidate } => m.scatter(rec, *candidate),
                _ => None,
            },
            Material::Metal(m) => match incidence {
                Incidence::Mirror { direction, facing } => m.scatter(rec, *direction, *facing),
                _ => None,
            },
            Material::Dielectric(m) => match incidence {
                Incidence::Glass { bend, reflectance, draw, reflected, refracted } => m.scatter(
                    rec,
                    *bend,
                    *reflectance,
                    *draw,
                    *reflected,
                    *refracted,
                ),
                _ => None,
            },
        }
    }
}

} // verus!
