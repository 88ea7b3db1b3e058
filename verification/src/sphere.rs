//! Spheres and ray/sphere intersection.

use vstd::prelude::*;

use crate::fx::{
    fx_add, fx_div, fx_mul, fx_neg, fx_sqrt, fx_sub, spec_fx_add, spec_fx_div, spec_fx_mul,
    spec_fx_neg, spec_fx_sqrt, spec_fx_sub, FX_ONE,
};
use crate::hittable::{opt_rec_matches, HitInfo, HitRecord};
use crate::material::{Lambertian, Material};
use crate::ray::{spec_ray_at, Ray};
use crate::vec3::{spec_vdiv, spec_vdot, spec_vlen2, spec_vneg, spec_vsub, Point3, Vec3, V3};

verus! {

/// A sphere: center, signed radius, and its material. A negative radius
/// flips the outward normal inward, building a hollow shell.
#[derive(Clone, Copy, Debug, PartialEq, Eq, Structural)]
pub struct Sphere {
    pub center: Point3,
    pub radius: i64,
    pub material: Material,
}

impl Sphere {
    /// Well-formed: a nonzero radius (the normal is divided by it) and a
    /// well-formed material.
    pub open spec fn wf(self) -> bool {
        self.radius != 0 && self.material.wf()
    }

    /// Build a sphere.
    pub fn new(center: Point3, radius: i64, material: Material) -> (s: Sphere)
        requires
            radius != 0,
            material.wf(),
        ensures
            s == (Sphere { center, radius, material }),
            s.wf(),
    {
        Sphere { center, radius, material }
    }

    /// Build a sphere with a plain white diffuse material.
    pub fn new_cr(center: Point3, radius: i64) -> (s: Sphere)
        requires
            radius != 0,
        ensures
            s == (Sphere {
                center,
                radius,
                material: Material::Lambertian(
                    crate::material::Lambertian {
                        albedo: Vec3 { x: FX_ONE, y: FX_ONE, z: FX_ONE },
                    },
                ),
            }),
            s.wf(),
    {
        let material = Lambertian::new(FX_ONE, FX_ONE, FX_ONE);
        Sphere { center, radius, material }
    }
}

/// The half-b form of the ray/sphere quadratic, evaluated in fixed point.
pub open spec fn spec_sphere_quadratic(s: Sphere, ray: Ray) -> (int, int, int) {
    let oc = spec_vsub(ray.origin.v(), s.center.v());
    let a = spec_vlen2(ray.dir.v());
    let half_b = spec_vdot(oc, ray.dir.v());
    let c = spec_fx_sub(spec_vlen2(oc), spec_fx_mul(s.radius as int, s.radius as int));
    (a, half_b, c)
}

/// The fields recorded for an accepted root `t`.
pub open spec fn spec_make_hit(s: Sphere, ray: Ray, t: int) -> HitInfo {
    let p = spec_ray_at(ray, t);
    let outward = spec_vdiv(spec_vsub(p, s.center.v()), s.radius as int);
    let front_face = spec_vdot(ray.dir.v(), outward) < 0;
    HitInfo {
        t,
        p,
        normal: if front_face {
            outward
        } else {
            spec_vneg(outward)
        },
        front_face,
        material: s.material,
    }
}

/// The intersection of a ray with a sphere inside the open window
/// (t_min, t_max): no hit when the discriminant is negative, or when the ray
/// direction is zero (a degenerate query whose quadratic has no leading
/// coefficient); otherwise the smaller root if it qualifies, else the
/// larger, else no hit.
pub open spec fn spec_sphere_hit(s: Sphere, ray: Ray, t_min: int, t_max: int) -> Option<HitInfo> {
    let (a, half_b, c) = spec_sphere_quadratic(s, ray);
    let disc = spec_fx_sub(spec_fx_mul(half_b, half_b), spec_fx_mul(a, c));
    if disc < 0 || a == 0 {
        Option::None
    } else {
        let sqrtd = spec_fx_sqrt(disc);
        let root1 = spec_fx_div(spec_fx_sub(spec_fx_neg(half_b), sqrtd), a);
        let root2 = spec_fx_div(spec_fx_add(spec_fx_neg(half_b), sqrtd), a);
        if t_min < root1 && root1 < t_max {
            Option::Some(spec_make_hit(s, ray, root1))
        } else if t_min < root2 && root2 < t_max {
            Option::Some(spec_make_hit(s, ray, root2))
        } else {
            Option::None
        }
    }
}

impl Sphere {
    /// Intersect a ray with this sphere inside the open window
    /// (t_min, t_max). On a hit, the record's normal faces against the ray.
    pub fn hit(&self, ray: &Ray, t_min: i64, t_max: i64) -> (r: Option<HitRecord>)
        requires
            self.wf(),
        ensures
            opt_rec_matches(r, spec_sphere_hit(*self, *ray, t_min as int, t_max as int)),
            r matches Some(rec) ==> spec_vdot(ray.dir.v(), rec.normal.v()) <= 0
                && t_min < rec.t < t_max && rec.material == self.material,
    {
        let oc = ray.origin.sub(&self.center);
        let a = ray.dir.length_squared();
        let half_b = oc.dot(&ray.dir);
        let c = fx_sub(oc.length_squared(), fx_mul(self.radius, self.radius));
        let discriminant = fx_sub(fx_mul(half_b, half_b), fx_mul(a, c));
        if discriminant < 0 || a == 0 {
            None
        } else {
            proof {
                crate::vec3::lemma_vlen2_nonneg(ray.dir.v());
            }
            let sqrtd = fx_sqrt(discriminant);
            let nb = fx_neg(half_b);
            let root1 = fx_div(fx_sub(nb, sqrtd), a);
            let root2 = fx_div(fx_add(nb, sqrtd), a);
            let root = if t_min < root1 && root1 < t_max {
                root1
            } else if t_min < root2 && root2 < t_max {
                root2
            } else {
                return None;
            };
            let p = ray.at(root);
            let outward_normal = p.sub(&self.center).div_scalar(self.radius);
            let mut rec = HitRecord {
                t: root,
                p,
                normal: outward_normal,
                front_face: false,
                material: self.material,
            };
            rec.set_face_normal(ray, &outward_normal);
            Some(rec)
        }
    }
}

/// The normal convention, stated of the intersection specification itself:
/// whatever hit a sphere reports, its normal never points along the ray, and
/// its parameter lies strictly inside the query window.
pub proof fn lemma_sphere_hit_faces_ray(s: Sphere, ray: Ray, t_min: int, t_max: int)
    ensures
        spec_sphere_hit(s, ray, t_min, t_max) matches Some(h) ==> spec_vdot(
            ray.dir.v(),
            h.normal,
        ) <= 0 && t_min < h.t < t_max,
{
    if let Option::Some(h) = spec_sphere_hit(s, ray, t_min, t_max) {
        let outward = spec_vdiv(spec_vsub(spec_ray_at(ray, h.t), s.center.v()), s.radius as int);
        if spec_vdot(ray.dir.v(), outward) >= 0 {
            crate::vec3::lemma_vdot_neg_right(ray.dir.v(), outward);
        }
    }
}
pub open spec fn spec_hit_sphere_10(center: V3, radius: int, r: Ray) -> bool {
    let oc = spec_vsub(r.origin.v(), center);
    let a = spec_vdot(r.dir.v(), r.dir.v());
    let b = spec_fx_add(spec_vdot(oc, r.dir.v()), spec_vdot(oc, r.dir.v()));
    let c = spec_fx_sub(spec_vdot(oc, oc), spec_fx_mul(radius, radius));
    let four_ac = spec_fx_mul(spec_fx_mul(4 * FX_ONE, a), c);
    spec_fx_sub(spec_fx_mul(b, b), four_ac) > 0
}

/// Whether a ray meets a sphere at all (boundary grazes excluded).
pub fn hit_sphere_10(center: &Point3, radius: i64, r: &Ray) -> (hit: bool)
    ensures
        hit == spec_hit_sphere_10(center.v(), radius as int, *r),
{
    let oc = r.origin.sub(center);
    let a = r.dir.dot(&r.dir);
    let d = oc.dot(&r.dir);
    let b = fx_add(d, d);
    let c = fx_sub(oc.dot(&oc), fx_mul(radius, radius));
    let discriminant = fx_sub(fx_mul(b, b), fx_mul(fx_mul(4 * FX_ONE, a), c));
    discriminant > 0
}

/// The smaller root of the full-b quadratic, or minus one when the ray
/// misses; a zero direction is a miss.
pub open spec fn spec_hit_sphere_11(center: V3, radius: int, r: Ray) -> int {
    let oc = spec_vsub(r.origin.v(), center);
    let a = spec_vdot(r.dir.v(), r.dir.v());
    let b = spec_fx_add(spec_vdot(oc, r.dir.v()), spec_vdot(oc, r.dir.v()));
    let c = spec_fx_sub(spec_vdot(oc, oc), spec_fx_mul(radius, radius));
    let disc = spec_fx_sub(spec_fx_mul(b, b), spec_fx_mul(spec_fx_mul(4 * FX_ONE, a), c));
    if disc > 0 {
        spec_fx_div(spec_fx_sub(spec_fx_neg(b), spec_fx_sqrt(disc)), 2 * FX_ONE)
    } else {
        -(FX_ONE as int)
    }
}

/// First shading form: the smaller intersection parameter, or minus one.
pub fn hit_sphere_11(center: &Point3, radius: i64, r: &Ray) -> (t: i64)
    ensures
        t as int == spec_hit_sphere_11(center.v(), radius as int, *r),
{
    let oc = r.origin.sub(center);
    let a = r.dir.dot(&r.dir);
    let d = oc.dot(&r.dir);
    let b = fx_add(d, d);
    let c = fx_sub(oc.dot(&oc), fx_mul(radius, radius));
    let discriminant = fx_sub(fx_mul(b, b), fx_mul(fx_mul(4 * FX_ONE, a), c));
    if discriminant > 0 {
        fx_div(fx_sub(fx_neg(b), fx_sqrt(discriminant)), 2 * FX_ONE)
    } else {
        -FX_ONE
    }
}

/// The half-b form of the same test; a zero direction is a miss.
pub open spec fn spec_hit_sphere_12(center: V3, radius: int, r: Ray) -> int {
    let oc = spec_vsub(r.origin.v(), center);
    let a = spec_vlen2(r.dir.v());
    let half_b = spec_vdot(oc, r.dir.v());
    let c = spec_fx_sub(spec_vdot(oc, oc), spec_fx_mul(radius, radius));
    let disc = spec_fx_sub(spec_fx_mul(half_b, half_b), spec_fx_mul(a, c));
    if disc < 0 || a == 0 {
        -(FX_ONE as int)
    } else {
        spec_fx_div(spec_fx_sub(spec_fx_neg(half_b), spec_fx_sqrt(disc)), a)
    }
}

/// Optimized shading form, using the half-b discriminant.
pub fn hit_sphere_12(center: &Point3, radius: i64, r: &Ray) -> (t: i64)
    ensures
        t as int == spec_hit_sphere_12(center.v(), radius as int, *r),
{
    let oc = r.origin.sub(center);
    let a = r.dir.length_squared();
    let half_b = oc.dot(&r.dir);
    let c = fx_sub(oc.dot(&oc), fx_mul(radius, radius));
    let discriminant = fx_sub(fx_mul(half_b, half_b), fx_mul(a, c));
    if discriminant < 0 || a == 0 {
        -FX_ONE
    } else {
        proof {
            crate::vec3::lemma_vlen2_nonneg(r.dir.v());
        }
        fx_div(fx_sub(fx_neg(half_b), fx_sqrt(discriminant)), a)
    }
}

} // verus!
