//! Primitives, and which of the parameters at which a ray's line meets one
//! counts as a hit.

use vstd::prelude::*;
use crate::material::Material;
use crate::scalar::Scalar;
use crate::util::{Point3, Vec3};

verus! {

/// Where a ray met a surface.
#[derive(Clone, Copy, Debug, PartialEq, Eq, Structural)]
pub struct HitRecord {
    pub p: Point3,
    /// The surface normal, turned against the incoming ray.
    pub normal: Vec3,
    pub material: Material,
    pub t: Scalar,
    /// Whether the ray came from outside the surface.
    pub front_face: bool,
}

impl HitRecord {
    /// The record of a hit at `p`, with ray parameter `t`. `facing` is the dot
    /// product of the ray's direction and `outward_normal`: the ray comes from
    /// outside when it is below zero, and the normal is turned round when not.
    pub fn new(
        p: Vec3,
        outward_normal: &Vec3,
        material: &Material,
        t: Scalar,
        facing: Scalar,
    ) -> (rec: HitRecord)
        ensures
            rec.p == p,
            rec.t == t,
            rec.material == *material,
            rec.front_face == facing.lt_spec(Scalar { bits: 0 }),
            rec.normal == if rec.front_face {
                *outward_normal
            } else {
                outward_normal.neg_spec()
            },
    {
        let front_face = facing.lt(Scalar::zero());
        let normal = if front_face {
            *outward_normal
        } else {
            outward_normal.neg()
        };
        HitRecord { p, normal, material: *material, t, front_face }
    }
}

/// The solutions of a ray's quadratic for a sphere: the discriminant, and the
/// two parameters `(-b - sqrt(d)) / a` and `(-b + sqrt(d)) / a`.
#[derive(Clone, Copy, Debug, PartialEq, Eq, Structural)]
pub struct Roots {
    pub discriminant: Scalar,
    pub near: Scalar,
    pub far: Scalar,
}

/// The closest approach of a ray's line to a cylinder's axis: the ray parameter
/// there, and the distance between the two lines.
#[derive(Clone, Copy, Debug, PartialEq, Eq, Structural)]
pub struct Approach {
    pub t: Scalar,
    pub distance: Scalar,
}

/// What a ray's line does at one primitive, before any range of `t` is applied.
#[derive(Clone, Copy, Debug, PartialEq, Eq, Structural)]
pub enum Crossing {
    /// Nothing to test: the geometry has no solution.
    Miss,
    Sphere(Roots),
    Cylinder(Approach),
}

/// A sphere. With a negative radius its surface faces inwards.
#[derive(Clone, Copy, Debug, PartialEq, Eq, Structural)]
pub struct Sphere {
    pub center: Point3,
    pub radius: Scalar,
    pub material: Material,
}

/// An infinite cylinder round the axis through `start` along `dir`.
#[derive(Clone, Copy, Debug, PartialEq, Eq, Structural)]
pub struct Cylinder {
    pub start: Point3,
    pub dir: Vec3,
    pub radius: Scalar,
    pub material: Material,
}

/// A primitive of the scene.
#[derive(Clone, Copy, Debug, PartialEq, Eq, Structural)]
pub enum Hittable {
    Sphere(Sphere),
    Cylinder(Cylinder),
}

/// `t` lies in `(t_min, t_max]`.
pub open spec fn in_range(t: Scalar, t_min: Scalar, t_max: Scalar) -> bool {
    t_min.lt_spec(t) && t.le_spec(t_max)
}

impl Roots {
    /// The root that counts in `(t_min, t_max]`: none where the discriminant is
    /// negative, else the near root if it lies in the range, else the far one
    /// if that does.
    pub open spec fn select(self, t_min: Scalar, t_max: Scalar) -> Option<Scalar> {
        if self.discriminant.lt_spec(Scalar { bits: 0 }) {
            None
        } else if in_range(self.near, t_min, t_max) {
            Some(self.near)
        } else if in_range(self.far, t_min, t_max) {
            Some(self.far)
        } else {
            None
        }
    }
}

impl Approach {
    /// The parameter of the approach, where the two lines pass closer than
    /// `radius` and the parameter lies strictly between `t_min` and `t_max`.
    pub open spec fn select(self, radius: Scalar, t_min: Scalar, t_max: Scalar) -> Option<
        Scalar,
    > {
        if self.distance.lt_spec(radius) && t_min.lt_spec(self.t) && self.t.lt_spec(t_max) {
            Some(self.t)
        } else {
            None
        }
    }
}

impl Sphere {
    /// The sphere of radius `r` round `(cx, cy, cz)`.
    pub fn new(cx: Scalar, cy: Scalar, cz: Scalar, r: Scalar, material: &Material) -> (h:
        Hittable)
        ensures
            h == Hittable::Sphere(
                Sphere { center: Vec3 { x: cx, y: cy, z: cz }, radius: r, material: *material },
            ),
    {
        Hittable::Sphere(
            Sphere { center: Vec3 { x: cx, y: cy, z: cz }, radius: r, material: *material },
        )
    }

    /// The parameter at which the ray hits the sphere within `(t_min, t_max]`.
    pub fn hit(&self, roots: &Roots, t_min: Scalar, t_max: Scalar) -> (r: Option<Scalar>)
        ensures
            r == roots.select(t_min, t_max),
    {
        if roots.discriminant.lt(Scalar::zero()) {
            return None;
        }
        let mut t = roots.near;
        if !(t_min.lt(t) && t.le(t_max)) {
            t = roots.far;
            if !(t_min.lt(t) && t.le(t_max)) {
                return None;
            }
        }
        Some(t)
    }
}

impl Cylinder {
    /// The cylinder of the given radius round the axis through `start` along `dir`.
    pub fn new(start: Point3, dir: Vec3, radius: Scalar, material: &Material) -> (h: Hittable)
        ensures
            h == Hittable::Cylinder(Cylinder { start, dir, radius, material: *material }),
    {
        Hittable::Cylinder(Cylinder { start, dir, radius, material: *material })
    }

    /// The normal of the closest approach, turned away from the axis. `side`
    /// is the dot product of `normal` with the vector from the axis to the
    /// hit point: the normal is turned round where it is below zero.
    pub fn outward_normal(normal: &Vec3, side: Scalar) -> (n: Vec3)
        ensures
            n == if side.lt_spec(Scalar { bits: 0 }) {
                normal.neg_spec()
            } else {
                *normal
            },
    {
        if side.lt(Scalar::zero()) {
            normal.neg()
        } else {
            *normal
        }
    }

    /// The parameter at which the ray hits the cylinder strictly between
    /// `t_min` and `t_max`.
    pub fn hit(&self, approach: &Approach, t_min: Scalar, t_max: Scalar) -> (r: Option<Scalar>)
        ensures
            r == approach.select(self.radius, t_min, t_max),
    {
        if approach.distance.lt(self.radius) && t_min.lt(approach.t) && approach.t.lt(t_max) {
            Some(approach.t)
        } else {
            None
        }
    }
}

impl Hittable {
    /// The hit of this primitive in the range, given what the ray's line does
    /// at it. A crossing of another kind of primitive is no hit.
    pub open spec fn hit_spec(self, crossing: Crossing, t_min: Scalar, t_max: Scalar) -> Option<
        Scalar,
    > {
        match (self, crossing) {
            (Hittable::Sphere(_), Crossing::Sphere(roots)) => roots.select(t_min, t_max),
            (Hittable::Cylinder(c), Crossing::Cylinder(approach)) => approach.select(
                c.radius,
                t_min,
                t_max,
            ),
            _ => None,
        }
    }

    /// The material of the primitive.
    pub open spec fn material_spec(self) -> Material {
        match self {
            Hittable::Sphere(s) => s.material,
            Hittable::Cylinder(c) => c.material,
        }
    }

    /// The parameter at which the ray hits this primitive in the range.
    pub fn hit(&self, crossing: &Crossing, t_min: Scalar, t_max: Scalar) -> (r: Option<Scalar>)
        ensures
            r == self.hit_spec(*crossing, t_min, t_max),
    {
        match self {
            Hittable::Sphere(s) => match crossing {
                Crossing::Sphere(roots) => s.hit(roots, t_min, t_max),
                _ => None,
            },
            Hittable::Cylinder(c) => match crossing {
                Crossing::Cylinder(approach) => c.hit(approach, t_min, t_max),
                _ => None,
            },
        }
    }

    /// The material of the primitive.
    pub fn material(&self) -> (m: Material)
        ensures
            m == self.material_spec(),
    {
        match self {
            Hittable::Sphere(s) => s.material,
            Hittable::Cylinder(c) => c.material,
        }
    }
}

/// A hit lies in the range of the test that found it.
pub proof fn lemma_hit_in_range(object: Hittable, crossing: Crossing, t_min: Scalar, t_max: Scalar)
    ensures
        match object.hit_spec(crossing, t_min, t_max) {
            Some(t) => in_range(t, t_min, t_max),
            None => true,
        },
{
}

/// Narrowing the range from above never brings a hit further away: against a
/// hit at `t` in the range up to `t_max`, the primitive's hit in the range up
/// to `closer` is at most `t`, and where it has none there, `t` is no nearer
/// than `closer`.
pub proof fn lemma_hit_narrowed(
    object: Hittable,
    crossing: Crossing,
    t_min: Scalar,
    t_max: Scalar,
    closer: Scalar,
)
    requires
        closer.le_spec(t_max),
        object.hit_spec(crossing, t_min, t_max) is Some,
    ensures
        match object.hit_spec(crossing, t_min, closer) {
            Some(t) => t.le_spec(object.hit_spec(crossing, t_min, t_max)->0),
            None => closer.le_spec(object.hit_spec(crossing, t_min, t_max)->0),
        },
{
}

} // verus!
