//! Surface materials and their scattering behavior.
//!
//! The three material kinds form a closed sum type. Scattering consumes a
//! random source, so its contracts state what holds of every outcome: who
//! scatters at all, where the scattered ray starts, and that attenuation
//! never exceeds one in any channel (energy conservation).

use vstd::prelude::*;

use crate::fx::{
    clamp, fx_add, fx_div, fx_mul, fx_neg, fx_sqrt, fx_sub, spec_clamp, spec_fx_add, spec_fx_div,
    spec_fx_mul, spec_fx_sub, FX_ONE,
};
use crate::hittable::HitRecord;
use crate::ray::Ray;
use crate::rtweekend::random_unif_1;
use crate::vec3::{color, Color, Vec3, V3};

verus! {

/// The outcome of a scatter: an attenuation color and the outgoing ray.
#[derive(Clone, Copy, Debug, PartialEq, Eq, Structural)]
pub struct ScatterRecord {
    pub attenuation: Color,
    pub scattered: Ray,
}

/// A color whose channels all lie in the unit interval.
pub open spec fn spec_color_unit(c: Vec3) -> bool {
    &&& 0 <= c.x <= FX_ONE
    &&& 0 <= c.y <= FX_ONE
    &&& 0 <= c.z <= FX_ONE
}

/// A diffuse surface: scatters around the normal, attenuating by its albedo.
#[derive(Clone, Copy, Debug, PartialEq, Eq, Structural)]
pub struct Lambertian {
    pub albedo: Color,
}

/// A reflective surface with an albedo and a fuzz radius in [0, 1].
#[derive(Clone, Copy, Debug, PartialEq, Eq, Structural)]
pub struct Metal {
    pub albedo: Color,
    pub fuzz: i64,
}

/// A refractive surface with a positive index of refraction.
#[derive(Clone, Copy, Debug, PartialEq, Eq, Structural)]
pub struct Dielectric {
    pub eta: i64,
}

/// The closed set of materials a surface can carry.
#[derive(Clone, Copy, Debug, PartialEq, Eq, Structural)]
pub enum Material {
    Lambertian(Lambertian),
    Metal(Metal),
    Dielectric(Dielectric),
}

impl Lambertian {
    /// Well-formed: the albedo is a fraction of light per channel.
    pub open spec fn wf(self) -> bool {
        spec_color_unit(self.albedo)
    }

    /// Build a diffuse material from albedo channels.
    pub fn new(r: i64, g: i64, b: i64) -> (m: Material)
        requires
            0 <= r <= FX_ONE,
            0 <= g <= FX_ONE,
            0 <= b <= FX_ONE,
        ensures
            m == Material::Lambertian(Lambertian { albedo: Vec3 { x: r, y: g, z: b } }),
            m.wf(),
    {
        Material::Lambertian(Lambertian { albedo: color(r, g, b) })
    }

    /// Build a diffuse material from an albedo color.
    pub fn with_color(albedo: Vec3) -> (m: Material)
        requires
            spec_color_unit(albedo),
        ensures
            m == Material::Lambertian(Lambertian { albedo }),
            m.wf(),
    {
        Material::Lambertian(Lambertian { albedo })
    }

    /// Scatter toward `normal + random unit vector`, falling back to the
    /// normal itself when that sum degenerates to zero.
    pub fn scatter(
        &self,
        _ray_in: &Ray,
        hit_record: &HitRecord,
        rng: &mut rand::rngs::StdRng,
    ) -> (r: Option<ScatterRecord>)
        ensures
            r matches Some(sr) && sr.attenuation == self.albedo
                && sr.scattered.origin == hit_record.p,
            r matches Some(sr) ==> exists|s: V3|
                16384 <= crate::vec3::spec_vlen2(s) < FX_ONE as int && sr.scattered.dir.v()
                    == spec_lambertian_dir(hit_record.normal.v(), crate::vec3::spec_vunit(s)),
    {
        let ruv = Vec3::random_unit_vector(rng);
        let scatter_dir0 = hit_record.normal.add(&ruv);
        let scatter_direction = if scatter_dir0.near_zero() {
            hit_record.normal
        } else {
            scatter_dir0
        };
        let scattered = Ray::new(&hit_record.p, &scatter_direction);
        proof {
            let s = choose|s: V3|
                16384 <= crate::vec3::spec_vlen2(s) < FX_ONE as int && ruv.v()
                    == crate::vec3::spec_vunit(s);
            assert(16384 <= crate::vec3::spec_vlen2(s) < FX_ONE as int && scattered.dir.v()
                == spec_lambertian_dir(hit_record.normal.v(), crate::vec3::spec_vunit(s)));
        }
        Some(ScatterRecord { attenuation: self.albedo, scattered })
    }
}

/// The direction a diffuse surface scatters toward, given the unit sample:
/// `normal + sample`, or the normal alone when the sum degenerates to zero.
pub open spec fn spec_lambertian_dir(normal: V3, u: V3) -> V3 {
    let d = crate::vec3::spec_vadd(normal, u);
    if crate::vec3::spec_vnear_zero(d) {
        normal
    } else {
        d
    }
}

/// The fuzzed mirror direction a metal reflects toward, given the sphere
/// sample: the reflection of the unit incoming direction, offset by the
/// sample scaled with the fuzz radius.
pub open spec fn spec_metal_dir(in_dir: V3, normal: V3, fuzz: int, f: V3) -> V3 {
    crate::vec3::spec_vadd(
        crate::vec3::spec_vreflect(crate::vec3::spec_vunit(in_dir), normal),
        crate::vec3::spec_vscale(f, fuzz),
    )
}

impl Metal {
    /// Well-formed: unit-interval albedo and fuzz.
    pub open spec fn wf(self) -> bool {
        spec_color_unit(self.albedo) && 0 <= self.fuzz <= FX_ONE
    }

    /// Build a reflective material; the fuzz radius is clamped into [0, 1].
    pub fn new(albedo: &Color, fuzz: i64) -> (m: Material)
        requires
            spec_color_unit(*albedo),
        ensures
            m == Material::Metal(
                Metal { albedo: *albedo, fuzz: spec_clamp(fuzz as int, 0, FX_ONE as int) as i64 },
            ),
            m.wf(),
    {
        Material::Metal(Metal { albedo: *albedo, fuzz: clamp(fuzz, 0, FX_ONE) })
    }

    /// Build a perfectly sharp reflective material from albedo channels.
    pub fn new_rgb(r: i64, g: i64, b: i64) -> (m: Material)
        requires
            0 <= r <= FX_ONE,
            0 <= g <= FX_ONE,
            0 <= b <= FX_ONE,
        ensures
            m == Material::Metal(Metal { albedo: Vec3 { x: r, y: g, z: b }, fuzz: 0 }),
            m.wf(),
    {
        Material::Metal(Metal { albedo: color(r, g, b), fuzz: 0 })
    }

    /// Reflect about the normal, fuzzed by a random offset; absorb the ray
    /// when the fuzzed reflection would point into the surface. Either way
    /// the fuzzed direction decides: it is returned exactly when it leaves
    /// the surface.
    pub fn scatter(
        &self,
        ray_in: &Ray,
        hit_record: &HitRecord,
        rng: &mut rand::rngs::StdRng,
    ) -> (r: Option<ScatterRecord>)
        ensures
            r matches Some(sr) ==> sr.attenuation == self.albedo
                && sr.scattered.origin == hit_record.p
                && crate::vec3::spec_vdot(sr.scattered.dir.v(), hit_record.normal.v()) > 0,
            exists|f: V3|
                crate::vec3::spec_vlen2(f) < FX_ONE as int && {
                    let d = spec_metal_dir(
                        ray_in.dir.v(),
                        hit_record.normal.v(),
                        self.fuzz as int,
                        f,
                    );
                    match r {
                        Option::Some(sr) => sr.scattered.dir.v() == d,
                        Option::None => crate::vec3::spec_vdot(d, hit_record.normal.v()) <= 0,
                    }
                },
    {
        let fuzz_sample = Vec3::rand_in_sphere_1(rng);
        let reflected = ray_in.dir.unit_vector().reflect(&hit_record.normal);
        let dir = reflected.add(&fuzz_sample.scale(self.fuzz));
        let scattered = Ray::new(&hit_record.p, &dir);
        proof {
            assert(dir.v() == spec_metal_dir(
                ray_in.dir.v(),
                hit_record.normal.v(),
                self.fuzz as int,
                fuzz_sample.v(),
            ));
        }
        if scattered.dir.dot(&hit_record.normal) > 0 {
            Some(ScatterRecord { attenuation: self.albedo, scattered })
        } else {
            None
        }
    }
}

/// The fifth power of a scalar, as the Schlick approximation uses it.
pub open spec fn spec_pow5(x: int) -> int {
    let s = spec_fx_mul(x, x);
    spec_fx_mul(spec_fx_mul(s, s), x)
}

/// The fifth power of a scalar.
fn pow5(x: i64) -> (r: i64)
    ensures
        r as int == spec_pow5(x as int),
{
    let s = fx_mul(x, x);
    fx_mul(fx_mul(s, s), x)
}

/// The base reflectance of the Schlick approximation:
/// `((1 - eta) / (1 + eta))^2`.
pub open spec fn spec_r0(ref_idx: int) -> int {
    let r = spec_fx_div(spec_fx_sub(FX_ONE as int, ref_idx), spec_fx_add(FX_ONE as int, ref_idx));
    spec_fx_mul(r, r)
}

/// The Schlick reflectance approximation: `r0 + (1 - r0) (1 - cosine)^5`.
pub open spec fn spec_reflectance(cosine: int, ref_idx: int) -> int {
    let r0 = spec_r0(ref_idx);
    spec_fx_add(
        r0,
        spec_fx_mul(spec_fx_sub(FX_ONE as int, r0), spec_pow5(spec_fx_sub(FX_ONE as int, cosine))),
    )
}

impl Dielectric {
    /// Well-formed: a positive index of refraction.
    pub open spec fn wf(self) -> bool {
        self.eta > 0
    }

    /// Build a refractive material.
    pub fn new(eta: i64) -> (m: Material)
        requires
            eta > 0,
        ensures
            m == Material::Dielectric(Dielectric { eta }),
            m.wf(),
    {
        Material::Dielectric(Dielectric { eta })
    }

    /// Schlick's approximation for reflectance at a dielectric boundary.
    pub fn reflectance(cosine: i64, ref_idx: i64) -> (r: i64)
        requires
            0 <= cosine <= FX_ONE,
            ref_idx >= 0,
        ensures
            r as int == spec_reflectance(cosine as int, ref_idx as int),
            0 <= r <= FX_ONE,
    {
        let r0_ = fx_div(fx_sub(FX_ONE, ref_idx), fx_add(FX_ONE, ref_idx));
        let r0 = fx_mul(r0_, r0_);
        proof {
            lemma_r0_unit(ref_idx as int);
        }
        let x = fx_sub(FX_ONE, cosine);
        proof {
            crate::fx::lemma_fx_mul_unit(x as int, x as int);
            crate::fx::lemma_fx_mul_unit(
                spec_fx_mul(x as int, x as int),
                spec_fx_mul(x as int, x as int),
            );
            crate::fx::lemma_fx_mul_unit(
                spec_fx_mul(spec_fx_mul(x as int, x as int), spec_fx_mul(x as int, x as int)),
                x as int,
            );
        }
        let p = pow5(x);
        let m = fx_mul(fx_sub(FX_ONE, r0), p);
        proof {
            crate::fx::lemma_fx_mul_unit((FX_ONE - r0) as int, p as int);
        }
        fx_add(r0, m)
    }
}

/// At full cosine the Schlick reflectance is exactly the base reflectance:
/// `(1 - cosine)^5` vanishes, leaving `r0` alone.
pub proof fn lemma_reflectance_at_full_cosine(ref_idx: int)
    ensures
        spec_reflectance(FX_ONE as int, ref_idx) == spec_r0(ref_idx),
{
    let x = spec_fx_sub(FX_ONE as int, FX_ONE as int);
    assert(x == 0);
    assert(spec_pow5(0) == 0);
    let q = spec_fx_sub(FX_ONE as int, spec_r0(ref_idx));
    assert(q * 0 == 0) by (nonlinear_arith);
    assert(spec_fx_mul(q, 0) == 0);
}

/// The base reflectance lies in the unit interval for any nonnegative index.
proof fn lemma_r0_unit(ref_idx: int)
    requires
        ref_idx >= 0,
        ref_idx <= crate::fx::FX_LIM as int,
    ensures
        0 <= spec_r0(ref_idx) <= FX_ONE as int,
{
    let num = spec_fx_sub(FX_ONE as int, ref_idx);
    let den = spec_fx_add(FX_ONE as int, ref_idx);
    let q = spec_fx_div(num, den);
    assert(-(FX_ONE as int) <= q <= FX_ONE as int) by (nonlinear_arith)
        requires
            q == spec_fx_div(num, den),
            num == spec_fx_sub(FX_ONE as int, ref_idx),
            den == spec_fx_add(FX_ONE as int, ref_idx),
            0 <= ref_idx <= crate::fx::FX_LIM as int,
    ;
    crate::fx::lemma_fx_square_unit(q);
}

/// The direction a refractive boundary sends a ray, given the uniform draw
/// that the Schlick test consumes: reflection under total internal
/// reflection or a winning reflectance draw, Snell refraction otherwise.
pub open spec fn spec_dielectric_dir(eta: int, front_face: bool, in_dir: V3, normal: V3, u: int) -> V3 {
    let eta_ratio = if front_face {
        spec_fx_div(FX_ONE as int, eta)
    } else {
        eta
    };
    let unit_dir = crate::vec3::spec_vunit(in_dir);
    let cos_theta = spec_clamp(
        crate::fx::spec_fx_neg(crate::vec3::spec_vdot(unit_dir, normal)),
        -(FX_ONE as int),
        FX_ONE as int,
    );
    let sin_theta = crate::fx::spec_fx_sqrt(
        spec_fx_sub(FX_ONE as int, spec_fx_mul(cos_theta, cos_theta)),
    );
    let shall_not_refract = spec_fx_mul(eta_ratio, sin_theta) > FX_ONE as int
        || spec_reflectance(spec_clamp(cos_theta, 0, FX_ONE as int), eta_ratio) > u;
    if shall_not_refract {
        crate::vec3::spec_vreflect(unit_dir, normal)
    } else {
        crate::vec3::spec_vrefract(unit_dir, normal, eta_ratio)
    }
}

impl Dielectric {
    /// Reflect or refract at the boundary: total internal reflection and the
    /// Schlick test choose reflection, otherwise Snell refraction. The
    /// attenuation is always fully transparent white, and the direction is
    /// determined by the one uniform draw the Schlick test consumes.
    pub fn scatter(
        &self,
        r_in: &Ray,
        rec: &HitRecord,
        rng: &mut rand::rngs::StdRng,
    ) -> (r: Option<ScatterRecord>)
        requires
            self.wf(),
        ensures
            r matches Some(sr) && sr.attenuation == (Vec3 { x: FX_ONE, y: FX_ONE, z: FX_ONE })
                && sr.scattered.origin == rec.p,
            r matches Some(sr) ==> exists|u: i64|
                0 <= u < FX_ONE && sr.scattered.dir.v() == spec_dielectric_dir(
                    self.eta as int,
                    rec.front_face,
                    r_in.dir.v(),
                    rec.normal.v(),
                    u as int,
                ),
    {
        let attenuation = color(FX_ONE, FX_ONE, FX_ONE);
        let eta_ratio = if rec.front_face {
            fx_div(FX_ONE, self.eta)
        } else {
            self.eta
        };
        let unit_dir = r_in.dir.unit_vector();
        let c0 = fx_neg(unit_dir.dot(&rec.normal));
        // min(-d, 1) as in Schlick's derivation; magnitudes beyond one can
        // only arise from rounding of the unit direction and are clamped away
        let cos_theta = clamp(c0, -FX_ONE, FX_ONE);
        proof {
            crate::fx::lemma_fx_square_unit(cos_theta as int);
        }
        let sin_theta = fx_sqrt(fx_sub(FX_ONE, fx_mul(cos_theta, cos_theta)));
        let cannot_refract = fx_mul(eta_ratio, sin_theta) > FX_ONE;
        let draw = if cannot_refract {
            0
        } else {
            random_unif_1(rng)
        };
        let shall_not_refract = cannot_refract || Dielectric::reflectance(
            clamp(cos_theta, 0, FX_ONE),
            eta_ratio,
        ) > draw;
        let direction = if shall_not_refract {
            unit_dir.reflect(&rec.normal)
        } else {
            unit_dir.refract(&rec.normal, eta_ratio)
        };
        proof {
            assert(0 <= draw < FX_ONE && direction.v() == spec_dielectric_dir(
                self.eta as int,
                rec.front_face,
                r_in.dir.v(),
                rec.normal.v(),
                draw as int,
            ));
        }
        Some(ScatterRecord { attenuation, scattered: Ray::new(&rec.p, &direction) })
    }
}

/// The attenuation a material applies when it scatters: its albedo for
/// diffuse and reflective surfaces, fully transparent white for glass.
pub open spec fn spec_attenuation_of(m: Material) -> V3 {
    match m {
        Material::Lambertian(l) => l.albedo.v(),
        Material::Metal(mt) => mt.albedo.v(),
        Material::Dielectric(_) => V3 { x: 65536, y: 65536, z: 65536 },
    }
}

impl Material {
    /// Well-formed, by kind.
    pub open spec fn wf(self) -> bool {
        match self {
            Material::Lambertian(m) => m.wf(),
            Material::Metal(m) => m.wf(),
            Material::Dielectric(m) => m.wf(),
        }
    }

    /// Scatter an incoming ray at a hit. Diffuse and refractive materials
    /// always scatter; a metal absorbs the ray when the fuzzed reflection
    /// would enter the surface. Whatever the random draws, the scattered ray
    /// starts at the hit point and the attenuation stays within the unit
    /// interval per channel.
    pub fn scatter(
        &self,
        ray_in: &Ray,
        hit_record: &HitRecord,
        rng: &mut rand::rngs::StdRng,
    ) -> (r: Option<ScatterRecord>)
        requires
            self.wf(),
        ensures
            r matches Some(sr) ==> spec_color_unit(sr.attenuation)
                && sr.scattered.origin == hit_record.p,
            self matches Material::Lambertian(m) ==> r matches Some(sr)
                && sr.attenuation == m.albedo,
            self matches Material::Metal(m) ==> (r matches Some(sr) ==> sr.attenuation == m.albedo
                && crate::vec3::spec_vdot(sr.scattered.dir.v(), hit_record.normal.v()) > 0),
            self matches Material::Dielectric(m) ==> r matches Some(sr)
                && sr.attenuation == (Vec3 { x: FX_ONE, y: FX_ONE, z: FX_ONE }),
    {
        match self {
            Material::Lambertian(m) => m.scatter(ray_in, hit_record, rng),
            Material::Metal(m) => m.scatter(ray_in, hit_record, rng),
            Material::Dielectric(m) => m.scatter(ray_in, hit_record, rng),
        }
    }
}

} // verus!
