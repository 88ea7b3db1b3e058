//! Intersection records and the aggregate surface.

use vstd::prelude::*;

use crate::material::Material;
use crate::ray::Ray;
use crate::sphere::{spec_sphere_hit, Sphere};
use crate::vec3::{
    lemma_vdot_neg_right, spec_vdot, spec_vin_range, spec_vneg, Point3, Vec3, V3,
};

verus! {

/// The result of an intersection query: hit point, surface normal corrected
/// to face the incoming ray, ray parameter, face flag, and the material hit.
#[derive(Clone, Copy, Debug, PartialEq, Eq, Structural)]
pub struct HitRecord {
    pub p: Point3,
    pub normal: Vec3,
    pub t: i64,
    pub front_face: bool,
    pub material: Material,
}

/// The mathematical content of a hit, over unbounded components.
pub ghost struct HitInfo {
    pub t: int,
    pub p: V3,
    pub normal: V3,
    pub front_face: bool,
    pub material: Material,
}

/// An executable record carries exactly the fields of a mathematical hit.
pub open spec fn rec_matches(rec: HitRecord, h: HitInfo) -> bool {
    &&& rec.t as int == h.t
    &&& rec.p.v() == h.p
    &&& rec.normal.v() == h.normal
    &&& rec.front_face == h.front_face
    &&& rec.material == h.material
}

/// An optional record carries exactly an optional mathematical hit.
pub open spec fn opt_rec_matches(r: Option<HitRecord>, h: Option<HitInfo>) -> bool {
    match (r, h) {
        (Option::None, Option::None) => true,
        (Option::Some(rec), Option::Some(hi)) => rec_matches(rec, hi),
        _ => false,
    }
}

impl HitRecord {
    /// Store the normal on the side facing the incoming ray: the outward
    /// normal if the ray arrives from outside, its negation otherwise. The
    /// stored normal therefore never points along the ray direction.
    pub fn set_face_normal(&mut self, ray: &Ray, outward_normal: &Vec3)
        requires
            spec_vin_range(outward_normal.v()),
        ensures
            final (self).front_face == (spec_vdot(ray.dir.v(), outward_normal.v()) < 0),
            final (self).normal.v() == if final (self).front_face {
                outward_normal.v()
            } else {
                spec_vneg(outward_normal.v())
            },
            spec_vdot(ray.dir.v(), final (self).normal.v()) <= 0,
            final (self).p == old(self).p,
            final (self).t == old(self).t,
            final (self).material == old(self).material,
    {
        self.front_face = ray.dir.dot(outward_normal) < 0;
        self.normal = if self.front_face {
            *outward_normal
        } else {
            proof {
                lemma_vdot_neg_right(ray.dir.v(), outward_normal.v());
            }
            outward_normal.neg()
        };
    }
}

/// An ordered collection of spheres queried as one surface.
pub struct HittableList {
    pub objects: Vec<Sphere>,
}

/// An aggregate over a single surface.
pub fn hittable_single(object: Sphere) -> (r: HittableList)
    ensures
        r.objects@ =~= seq![object],
{
    HittableList { objects: vec![object] }
}

/// An aggregate over the given surfaces, in order.
pub fn hittable_list(objects: &Vec<Sphere>) -> (r: HittableList)
    ensures
        r.objects@ == objects@,
{
    HittableList { objects: objects.clone() }
}

/// The closest hit over a sequence of spheres: each member is queried with
/// the window shrunk to the closest parameter found so far, in order.
pub open spec fn spec_list_hit(objs: Seq<Sphere>, ray: Ray, t_min: int, t_max: int) -> Option<
    HitInfo,
>
    decreases objs.len(),
{
    if objs.len() == 0 {
        Option::None
    } else {
        let prefix = spec_list_hit(objs.drop_last(), ray, t_min, t_max);
        let window = match prefix {
            Option::None => t_max,
            Option::Some(h) => h.t,
        };
        match spec_sphere_hit(objs.last(), ray, t_min, window) {
            Option::Some(h) => Option::Some(h),
            Option::None => prefix,
        }
    }
}

/// The normal convention, stated of the aggregate's specification: whatever
/// hit the closest-hit scan reports came from some member facing the ray,
/// inside the query window.
pub proof fn lemma_list_hit_faces_ray(objs: Seq<Sphere>, ray: Ray, t_min: int, t_max: int)
    ensures
        spec_list_hit(objs, ray, t_min, t_max) matches Some(h) ==> spec_vdot(
            ray.dir.v(),
            h.normal,
        ) <= 0 && t_min < h.t < t_max,
    decreases objs.len(),
{
    if objs.len() > 0 {
        lemma_list_hit_faces_ray(objs.drop_last(), ray, t_min, t_max);
        let prefix = spec_list_hit(objs.drop_last(), ray, t_min, t_max);
        let window = match prefix {
            Option::None => t_max,
            Option::Some(h) => h.t,
        };
        crate::sphere::lemma_sphere_hit_faces_ray(objs.last(), ray, t_min, window);
    }
}

impl HittableList {
    /// Every member is well-formed.
    pub open spec fn wf(self) -> bool {
        forall|i: int| 0 <= i < self.objects@.len() ==> self.objects@[i].wf()
    }

    /// Append a surface.
    pub fn add(&mut self, object: Sphere)
        ensures
            final (self).objects@ == old(self).objects@.push(object),
    {
        self.objects.push(object);
    }

    /// The closest hit across all members within the open parameter window,
    /// or nothing if no member is hit.
    pub fn hit(&self, ray: &Ray, t_min: i64, t_max: i64) -> (r: Option<HitRecord>)
        requires
            self.wf(),
        ensures
            opt_rec_matches(r, spec_list_hit(self.objects@, *ray, t_min as int, t_max as int)),
            r matches Some(rec) ==> spec_vdot(ray.dir.v(), rec.normal.v()) <= 0
                && t_min < rec.t < t_max && rec.material.wf(),
    {
        let mut best: Option<HitRecord> = None;
        let n = self.objects.len();
        for i in 0..n
            invariant
                n == self.objects@.len(),
                self.wf(),
                opt_rec_matches(
                    best,
                    spec_list_hit(self.objects@.take(i as int), *ray, t_min as int, t_max as int),
                ),
                best matches Some(rec) ==> spec_vdot(ray.dir.v(), rec.normal.v()) <= 0
                    && t_min < rec.t < t_max && rec.material.wf(),
        {
            let closest_so_far = match &best {
                Option::Some(rec) => rec.t,
                Option::None => t_max,
            };
            proof {
                assert(self.objects@.take(i + 1).drop_last() =~= self.objects@.take(i as int));
                assert(self.objects@.take(i + 1).last() == self.objects@[i as int]);
            }
            match self.objects[i].hit(ray, t_min, closest_so_far) {
                Option::Some(rec) => {
                    best = Some(rec);
                },
                Option::None => {},
            }
        }
        proof {
            assert(self.objects@.take(n as int) =~= self.objects@);
        }
        best
    }
}

} // verus!
