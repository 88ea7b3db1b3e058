//! Rays: origin plus direction, evaluated by parameter.

use vstd::prelude::*;

use crate::vec3::{spec_vadd, spec_vscale, Point3, Vec3, V3};

verus! {

/// A half-line through `origin` along `dir`. The direction carries no
/// normalization invariant; intersection math must not assume unit length.
#[derive(Clone, Copy, Debug, PartialEq, Eq, Structural)]
pub struct Ray {
    pub origin: Vec3,
    pub dir: Vec3,
}

/// The point a ray reaches at parameter `t`: `origin + t * dir`.
pub open spec fn spec_ray_at(r: Ray, t: int) -> V3 {
    spec_vadd(r.origin.v(), spec_vscale(r.dir.v(), t))
}

impl Ray {
    /// Evaluate the ray at parameter `t`.
    pub fn at(&self, t: i64) -> (p: Point3)
        ensures
            p.v() == spec_ray_at(*self, t as int),
    {
        self.origin.add(&self.dir.scale(t))
    }

    /// Build a ray from origin and direction.
    pub fn new(origin: &Vec3, dir: &Vec3) -> (r: Self)
        ensures
            r == (Ray { origin: *origin, dir: *dir }),
    {
        Self { origin: *origin, dir: *dir }
    }
}

} // verus!
