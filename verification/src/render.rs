//! The path-tracing integrator and the pixel loops around it.
//!
//! Each recursive integrator is bounded by a depth budget and promises that
//! every channel of its radiance stays in the unit interval, whatever the
//! random draws. The deterministic shading variants carry exact contracts.

use vstd::prelude::*;

use crate::camera::{Camera, CameraWithFocus};
use crate::fx::{
    clamp, fx_add, fx_div, fx_mul, fx_sub, lemma_fx_mul_unit, spec_clamp, spec_fx_add, spec_fx_mul,
    spec_fx_sub, FX_HALF, FX_ONE,
};
use crate::hittable::{spec_list_hit, HittableList};
use crate::ray::{spec_ray_at, Ray};
use crate::rtweekend::{random_unif_1, INF};
use crate::scenes::{
    four_sphere_world_50, four_sphere_world_52, four_sphere_world_55, four_sphere_world_60,
    four_sphere_world_65, many_sphere_world_70, marble_v1, two_sphere_world,
};
use crate::sphere::{
    hit_sphere_10, hit_sphere_11, hit_sphere_12, spec_hit_sphere_10, spec_hit_sphere_11,
    spec_hit_sphere_12, Sphere,
};
use crate::material::{spec_attenuation_of, spec_color_unit, Material};
use crate::vec3::{
    color, point3, spec_vadd, spec_vscale, spec_vsub, spec_vunit, vec3_, Color, Vec3, V3,
};
use crate::vec3_img::Rgb8;

verus! {

/// The shadow-acne guard: hits closer than about 0.001 are ignored.
pub const T_EPS: i64 = 66;

/// The tangent of half of 90 degrees: exactly one.
pub const TAN_HALF_90: i64 = 65536;

/// The tangent of half of 20 degrees, about 0.17633.
pub const TAN_HALF_20: i64 = 11556;

/// The sky gradient: a vertical blend from white at the horizon to sky blue
/// overhead, driven by the y component of the unit ray direction. The blend
/// parameter is clamped into [0, 1] to guard rounding of the unit direction.
pub open spec fn spec_background(ray: Ray) -> V3 {
    let unit_dir = spec_vunit(ray.dir.v());
    let t = spec_clamp(
        spec_fx_mul(FX_HALF as int, spec_fx_add(unit_dir.y, FX_ONE as int)),
        0,
        FX_ONE as int,
    );
    spec_vadd(
        spec_vscale(V3 { x: 65536, y: 65536, z: 65536 }, spec_fx_sub(FX_ONE as int, t)),
        spec_vscale(V3 { x: 32768, y: 45875, z: 65536 }, t),
    )
}

/// The background gradient seen by a ray that hits nothing.
pub fn ray_color_background(ray: &Ray) -> (c: Color)
    ensures
        c.v() == spec_background(*ray),
        spec_color_unit(c),
{
    let unit_dir = ray.dir.unit_vector();
    let t = clamp(fx_mul(FX_HALF, fx_add(unit_dir.y, FX_ONE)), 0, FX_ONE);
    let one_minus_t = fx_sub(FX_ONE, t);
    let white_part = color(FX_ONE, FX_ONE, FX_ONE).scale(one_minus_t);
    let sky_part = color(32768, 45875, FX_ONE).scale(t);
    proof {
        lemma_fx_mul_unit(65536, one_minus_t as int);
        lemma_fx_mul_unit(32768, t as int);
        lemma_fx_mul_unit(45875, t as int);
        lemma_fx_mul_unit(65536, t as int);
    }
    white_part.add(&sky_part)
}

/// The recursive integrator: nearest hit, delegate to the material, recurse
/// with the depth budget decremented, attenuate; background on a miss, black
/// on absorption or an exhausted budget. Every channel stays in [0, 1].
pub fn ray_color_49(ray: &Ray, rng: &mut rand::rngs::StdRng, world: &HittableList, depth: i32) -> (c:
    Color)
    requires
        world.wf(),
    ensures
        spec_color_unit(c),
        depth <= 0 ==> c == (Vec3 { x: 0, y: 0, z: 0 }),
        depth > 0 && spec_list_hit(world.objects@, *ray, T_EPS as int, INF as int) is None
            ==> c.v() == spec_background(*ray),
        depth > 0 ==> (spec_list_hit(world.objects@, *ray, T_EPS as int, INF as int) matches
        Some(h) ==> (c == (Vec3 { x: 0, y: 0, z: 0 }) || exists|rest: Vec3|
            spec_color_unit(rest) && c.v() == crate::vec3::spec_vmul(
                spec_attenuation_of(h.material),
                rest.v(),
            ))),
        depth > 0 ==> (spec_list_hit(world.objects@, *ray, T_EPS as int, INF as int) matches
        Some(h) ==> (h.material matches Material::Metal(_) || exists|rest: Vec3|
            spec_color_unit(rest) && c.v() == crate::vec3::spec_vmul(
                spec_attenuation_of(h.material),
                rest.v(),
            ))),
    decreases depth,
{
    if depth <= 0 {
        return color(0, 0, 0);
    }
    match world.hit(ray, T_EPS, INF) {
        Option::Some(rec) => {
            match rec.material.scatter(ray, &rec, rng) {
                Option::Some(s_rec) => {
                    let rest = ray_color_49(&s_rec.scattered, rng, world, depth - 1);
                    proof {
                        lemma_fx_mul_unit(s_rec.attenuation.x as int, rest.x as int);
                        lemma_fx_mul_unit(s_rec.attenuation.y as int, rest.y as int);
                        lemma_fx_mul_unit(s_rec.attenuation.z as int, rest.z as int);
                        assert(s_rec.attenuation.v() == spec_attenuation_of(
                            rec.material,
                        ));
                    }
                    let c = s_rec.attenuation.mul(&rest);
                    proof {
                        assert(spec_color_unit(rest) && c.v() == crate::vec3::spec_vmul(
                            spec_attenuation_of(rec.material),
                            rest.v(),
                        ));
                    }
                    c
                },
                Option::None => color(0, 0, 0),
            }
        },
        Option::None => ray_color_background(ray),
    }
}

/// The integrator with a stark sky: plain white above the horizon plane,
/// black below it.
pub fn ray_color_71(ray: &Ray, rng: &mut rand::rngs::StdRng, world: &HittableList, depth: i32) -> (c:
    Color)
    requires
        world.wf(),
    ensures
        spec_color_unit(c),
        depth <= 0 ==> c == (Vec3 { x: 0, y: 0, z: 0 }),
        depth > 0 && spec_list_hit(world.objects@, *ray, T_EPS as int, INF as int) is None
            ==> c == if ray.dir.z > 0 {
            Vec3 { x: 65536, y: 65536, z: 65536 }
        } else {
            Vec3 { x: 0, y: 0, z: 0 }
        },
        depth > 0 ==> (spec_list_hit(world.objects@, *ray, T_EPS as int, INF as int) matches
        Some(h) ==> (c == (Vec3 { x: 0, y: 0, z: 0 }) || exists|rest: Vec3|
            spec_color_unit(rest) && c.v() == crate::vec3::spec_vmul(
                spec_attenuation_of(h.material),
                rest.v(),
            ))),
        depth > 0 ==> (spec_list_hit(world.objects@, *ray, T_EPS as int, INF as int) matches
        Some(h) ==> (h.material matches Material::Metal(_) || exists|rest: Vec3|
            spec_color_unit(rest) && c.v() == crate::vec3::spec_vmul(
                spec_attenuation_of(h.material),
                rest.v(),
            ))),
    decreases depth,
{
    if depth <= 0 {
        return color(0, 0, 0);
    }
    match world.hit(ray, T_EPS, INF) {
        Option::Some(rec) => {
            match rec.material.scatter(ray, &rec, rng) {
                Option::Some(s_rec) => {
                    let rest = ray_color_49(&s_rec.scattered, rng, world, depth - 1);
                    proof {
                        lemma_fx_mul_unit(s_rec.attenuation.x as int, rest.x as int);
                        lemma_fx_mul_unit(s_rec.attenuation.y as int, rest.y as int);
                        lemma_fx_mul_unit(s_rec.attenuation.z as int, rest.z as int);
                        assert(s_rec.attenuation.v() == spec_attenuation_of(
                            rec.material,
                        ));
                    }
                    let c = s_rec.attenuation.mul(&rest);
                    proof {
                        assert(spec_color_unit(rest) && c.v() == crate::vec3::spec_vmul(
                            spec_attenuation_of(rec.material),
                            rest.v(),
                        ));
                    }
                    c
                },
                Option::None => color(0, 0, 0),
            }
        },
        Option::None => {
            if ray.dir.z > 0 {
                color(FX_ONE, FX_ONE, FX_ONE)
            } else {
                color(0, 0, 0)
            }
        },
    }
}

/// True Lambertian bounce: reflect toward `normal + random unit vector` and
/// halve the recursive radiance; no material model yet.
pub fn ray_color_38(ray: &Ray, rng: &mut rand::rngs::StdRng, world: &HittableList, depth: i32) -> (c:
    Color)
    requires
        world.wf(),
    ensures
        spec_color_unit(c),
        depth <= 0 ==> c == (Vec3 { x: 0, y: 0, z: 0 }),
        depth > 0 && spec_list_hit(world.objects@, *ray, T_EPS as int, INF as int) is None
            ==> c.v() == spec_background(*ray),
        depth > 0 && spec_list_hit(world.objects@, *ray, T_EPS as int, INF as int) is Some
            ==> exists|rest: Vec3|
            spec_color_unit(rest) && c.v() == spec_vscale(rest.v(), FX_HALF as int),
    decreases depth,
{
    if depth <= 0 {
        return color(0, 0, 0);
    }
    match world.hit(ray, T_EPS, INF) {
        Option::Some(rec) => {
            let target = rec.p.add(&rec.normal).add(&Vec3::random_unit_vector(rng));
            let reflected_ray = Ray::new(&rec.p, &target.sub(&rec.p));
            let rest = ray_color_38(&reflected_ray, rng, world, depth - 1);
            proof {
                lemma_fx_mul_unit(rest.x as int, FX_HALF as int);
                lemma_fx_mul_unit(rest.y as int, FX_HALF as int);
                lemma_fx_mul_unit(rest.z as int, FX_HALF as int);
            }
            let c = rest.scale(FX_HALF);
            proof {
                assert(spec_color_unit(rest) && c.v() == spec_vscale(rest.v(), FX_HALF as int));
            }
            c
        },
        Option::None => ray_color_background(ray),
    }
}

/// Diffuse bounce sampled inside the unit sphere, with the shadow-acne
/// guard.
pub fn ray_color_36(ray: &Ray, rng: &mut rand::rngs::StdRng, world: &HittableList, depth: i32) -> (c:
    Color)
    requires
        world.wf(),
    ensures
        spec_color_unit(c),
        depth <= 0 ==> c == (Vec3 { x: 0, y: 0, z: 0 }),
        depth > 0 && spec_list_hit(world.objects@, *ray, T_EPS as int, INF as int) is None
            ==> c.v() == spec_background(*ray),
        depth > 0 && spec_list_hit(world.objects@, *ray, T_EPS as int, INF as int) is Some
            ==> exists|rest: Vec3|
            spec_color_unit(rest) && c.v() == spec_vscale(rest.v(), FX_HALF as int),
    decreases depth,
{
    if depth <= 0 {
        return color(0, 0, 0);
    }
    match world.hit(ray, T_EPS, INF) {
        Option::Some(rec) => {
            let target = rec.p.add(&rec.normal).add(&Vec3::rand_in_sphere_1(rng));
            let reflected_ray = Ray::new(&rec.p, &target.sub(&rec.p));
            let rest = ray_color_36(&reflected_ray, rng, world, depth - 1);
            proof {
                lemma_fx_mul_unit(rest.x as int, FX_HALF as int);
                lemma_fx_mul_unit(rest.y as int, FX_HALF as int);
                lemma_fx_mul_unit(rest.z as int, FX_HALF as int);
            }
            let c = rest.scale(FX_HALF);
            proof {
                assert(spec_color_unit(rest) && c.v() == spec_vscale(rest.v(), FX_HALF as int));
            }
            c
        },
        Option::None => ray_color_background(ray),
    }
}

/// Diffuse bounce without the shadow-acne guard. Lacking that guard, a ray
/// can re-hit the surface it just left and bounce in place, so this variant
/// too is bounded by the depth budget, which also gives the recursion its
/// termination measure.
pub fn ray_color_33(ray: &Ray, rng: &mut rand::rngs::StdRng, world: &HittableList, depth: i32) -> (c:
    Color)
    requires
        world.wf(),
    ensures
        spec_color_unit(c),
        depth <= 0 ==> c == (Vec3 { x: 0, y: 0, z: 0 }),
        depth > 0 && spec_list_hit(world.objects@, *ray, 0, INF as int) is None ==> c.v()
            == spec_background(*ray),
        depth > 0 && spec_list_hit(world.objects@, *ray, 0, INF as int) is Some ==> exists|
            rest: Vec3,
        |
            spec_color_unit(rest) && c.v() == spec_vscale(rest.v(), FX_HALF as int),
    decreases depth,
{
    if depth <= 0 {
        return color(0, 0, 0);
    }
    match world.hit(ray, 0, INF) {
        Option::Some(rec) => {
            let target = rec.p.add(&rec.normal).add(&Vec3::rand_in_sphere_1(rng));
            let reflected_ray = Ray::new(&rec.p, &target.sub(&rec.p));
            let rest = ray_color_33(&reflected_ray, rng, world, depth - 1);
            proof {
                lemma_fx_mul_unit(rest.x as int, FX_HALF as int);
                lemma_fx_mul_unit(rest.y as int, FX_HALF as int);
                lemma_fx_mul_unit(rest.z as int, FX_HALF as int);
            }
            let c = rest.scale(FX_HALF);
            proof {
                assert(spec_color_unit(rest) && c.v() == spec_vscale(rest.v(), FX_HALF as int));
            }
            c
        },
        Option::None => ray_color_background(ray),
    }
}

/// Shading by the surface normal: half of `normal + white` at the nearest
/// hit, else the background gradient.
pub open spec fn spec_ray_color_24(ray: Ray, objs: Seq<Sphere>) -> V3 {
    match spec_list_hit(objs, ray, 0, INF as int) {
        Option::Some(h) => spec_vscale(
            spec_vadd(h.normal, V3 { x: 65536, y: 65536, z: 65536 }),
            FX_HALF as int,
        ),
        Option::None => spec_background(ray),
    }
}

/// Normal-shading integrator.
pub fn ray_color_24(ray: &Ray, world: &HittableList) -> (c: Color)
    requires
        world.wf(),
    ensures
        c.v() == spec_ray_color_24(*ray, world.objects@),
{
    match world.hit(ray, 0, INF) {
        Option::Some(rec) => rec.normal.add(&color(FX_ONE, FX_ONE, FX_ONE)).scale(FX_HALF),
        Option::None => ray_color_background(ray),
    }
}

/// A flat disc: solid yellow where the probe sphere is hit, else background.
pub open spec fn spec_ray_color_with_sphere(ray: Ray) -> V3 {
    if spec_hit_sphere_10(V3 { x: 0, y: 0, z: -65536 }, 32768, ray) {
        V3 { x: 65536, y: 65536, z: 32768 }
    } else {
        spec_background(ray)
    }
}

/// Flat-shaded probe sphere.
pub fn ray_color_with_sphere(ray: &Ray) -> (c: Color)
    ensures
        c.v() == spec_ray_color_with_sphere(*ray),
{
    if hit_sphere_10(&vec3_(0, 0, -FX_ONE), 32768, ray) {
        color(FX_ONE, FX_ONE, FX_HALF)
    } else {
        ray_color_background(ray)
    }
}

/// Normal-shaded probe sphere over the smaller root of the full quadratic.
pub open spec fn spec_ray_color_shaded_11(ray: Ray) -> V3 {
    let t = spec_hit_sphere_11(V3 { x: 0, y: 0, z: -65536 }, 32768, ray);
    if t > 0 {
        spec_vscale(
            spec_vunit(spec_vsub(spec_ray_at(ray, t), V3 { x: 0, y: 0, z: -65536 })),
            FX_HALF as int,
        )
    } else {
        spec_background(ray)
    }
}

/// Normal-shaded probe sphere.
pub fn ray_color_with_shaded_sphere_11(ray: &Ray) -> (c: Color)
    ensures
        c.v() == spec_ray_color_shaded_11(*ray),
{
    let t = hit_sphere_11(&vec3_(0, 0, -FX_ONE), 32768, ray);
    if t > 0 {
        let normal = ray.at(t).sub(&vec3_(0, 0, -FX_ONE)).unit_vector();
        normal.scale(FX_HALF)
    } else {
        ray_color_background(ray)
    }
}

/// Normal-shaded probe sphere over the half-b quadratic.
pub open spec fn spec_ray_color_shaded_12(ray: Ray) -> V3 {
    let t = spec_hit_sphere_12(V3 { x: 0, y: 0, z: -65536 }, 32768, ray);
    if t > 0 {
        spec_vscale(
            spec_vunit(spec_vsub(spec_ray_at(ray, t), V3 { x: 0, y: 0, z: -65536 })),
            FX_HALF as int,
        )
    } else {
        spec_background(ray)
    }
}

/// Normal-shaded probe sphere, optimized intersection.
pub fn ray_color_with_shaded_sphere_12(ray: &Ray) -> (c: Color)
    ensures
        c.v() == spec_ray_color_shaded_12(*ray),
{
    let t = hit_sphere_12(&vec3_(0, 0, -FX_ONE), 32768, ray);
    if t > 0 {
        let normal = ray.at(t).sub(&vec3_(0, 0, -FX_ONE)).unit_vector();
        normal.scale(FX_HALF)
    } else {
        ray_color_background(ray)
    }
}

/// One pixel of the first image: red grows along the row, green along the
/// column, blue stays constant at one quarter; no gamma correction.
pub open spec fn spec_pixel_listing_1(w: int, h: int, i: int, j: int) -> Rgb8 {
    let r = crate::fx::spec_fx_div(i * 65536, (w - 1) * 65536);
    let g = crate::fx::spec_fx_div(j * 65536, (h - 1) * 65536);
    Rgb8 {
        r: crate::vec3_img::spec_plain_byte(r) as u8,
        g: crate::vec3_img::spec_plain_byte(g) as u8,
        b: crate::vec3_img::spec_plain_byte(16384) as u8,
    }
}

/// The very first image: a red-green gradient with a constant blue channel,
/// written without gamma correction.
pub fn listing_1(image_width: u32, image_height: u32) -> (pixels: Vec<crate::vec3_img::Rgb8>)
    requires
        2 <= image_width,
        2 <= image_height,
    ensures
        pixels@.len() == image_width as int * image_height as int,
        forall|k: int|
            0 <= k < pixels@.len() ==> pixels@[k] == spec_pixel_listing_1(
                image_width as int,
                image_height as int,
                k % (image_width as int),
                k / (image_width as int),
            ),
{
    let w = image_width;
    let h = image_height;
    let mut pixels: Vec<crate::vec3_img::Rgb8> = Vec::new();
    proof {
        assert(0int * (w as int) == 0) by (nonlinear_arith);
    }
    for j in 0..h
        invariant
            pixels@.len() == j as int * w as int,
            2 <= w,
            2 <= h,
            forall|k: int|
                0 <= k < pixels@.len() ==> pixels@[k] == spec_pixel_listing_1(
                    w as int,
                    h as int,
                    k % (w as int),
                    k / (w as int),
                ),
    {
        for i in 0..w
            invariant
                pixels@.len() == j as int * w as int + i as int,
                j < h,
                2 <= w,
                2 <= h,
                forall|k: int|
                    0 <= k < pixels@.len() ==> pixels@[k] == spec_pixel_listing_1(
                        w as int,
                        h as int,
                        k % (w as int),
                        k / (w as int),
                    ),
        {
            let r = fx_div((i as i64) * 65536, ((w - 1) as i64) * 65536);
            let g = fx_div((j as i64) * 65536, ((h - 1) as i64) * 65536);
            let c = crate::vec3_img::color_no_gamma(r, g, 16384);
            proof {
                crate::vec3_img::lemma_plain_byte_range(r as int);
                crate::vec3_img::lemma_plain_byte_range(g as int);
                crate::vec3_img::lemma_plain_byte_range(16384);
                assert((j as int * w as int + i as int) / (w as int) == j as int && (j as int
                    * w as int + i as int) % (w as int) == i as int) by (nonlinear_arith)
                    requires
                        0 <= i as int,
                        (i as int) < (w as int),
                        0 <= j as int,
                ;
            }
            pixels.push(c);
        }
        proof {
            assert((j as int + 1) * (w as int) == j as int * w as int + w as int)
                by (nonlinear_arith);
        }
    }
    proof {
        assert((h as int) * (w as int) == (w as int) * (h as int)) by (nonlinear_arith);
    }
    pixels
}

/// One pixel of the gamma-corrected gradient image.
pub open spec fn spec_pixel_listing_7(w: int, h: int, i: int, j: int) -> Rgb8 {
    let x = crate::fx::spec_fx_div(i * 65536, (w - 1) * 65536);
    let y = crate::fx::spec_fx_div(j * 65536, (h - 1) * 65536);
    crate::vec3_img::spec_to_rgb(V3 { x, y, z: 16384 })
}

/// The same gradient carried through the color type and its gamma-corrected
/// conversion.
pub fn listing_7(img_width: u32, img_height: u32) -> (pixels: Vec<crate::vec3_img::Rgb8>)
    requires
        2 <= img_width,
        2 <= img_height,
    ensures
        pixels@.len() == img_width as int * img_height as int,
        forall|k: int|
            0 <= k < pixels@.len() ==> pixels@[k] == spec_pixel_listing_7(
                img_width as int,
                img_height as int,
                k % (img_width as int),
                k / (img_width as int),
            ),
{
    let w = img_width;
    let h = img_height;
    let mut pixels: Vec<crate::vec3_img::Rgb8> = Vec::new();
    proof {
        assert(0int * (w as int) == 0) by (nonlinear_arith);
    }
    for j in 0..h
        invariant
            pixels@.len() == j as int * w as int,
            2 <= w,
            2 <= h,
            forall|k: int|
                0 <= k < pixels@.len() ==> pixels@[k] == spec_pixel_listing_7(
                    w as int,
                    h as int,
                    k % (w as int),
                    k / (w as int),
                ),
    {
        for i in 0..w
            invariant
                pixels@.len() == j as int * w as int + i as int,
                j < h,
                2 <= w,
                2 <= h,
                forall|k: int|
                    0 <= k < pixels@.len() ==> pixels@[k] == spec_pixel_listing_7(
                        w as int,
                        h as int,
                        k % (w as int),
                        k / (w as int),
                    ),
        {
            let x = fx_div((i as i64) * 65536, ((w - 1) as i64) * 65536);
            let y = fx_div((j as i64) * 65536, ((h - 1) as i64) * 65536);
            let c = vec3_(x, y, 16384).to_rgb();
            proof {
                crate::vec3_img::lemma_gamma_byte_range(x as int);
                crate::vec3_img::lemma_gamma_byte_range(y as int);
                crate::vec3_img::lemma_gamma_byte_range(16384);
                assert((j as int * w as int + i as int) / (w as int) == j as int && (j as int
                    * w as int + i as int) % (w as int) == i as int) by (nonlinear_arith)
                    requires
                        0 <= i as int,
                        (i as int) < (w as int),
                        0 <= j as int,
                ;
            }
            pixels.push(c);
        }
        proof {
            assert((j as int + 1) * (w as int) == j as int * w as int + w as int)
                by (nonlinear_arith);
        }
    }
    proof {
        assert((h as int) * (w as int) == (w as int) * (h as int)) by (nonlinear_arith);
    }
    pixels
}

/// Image geometry and sampling budget for a render.
#[derive(Clone, Copy, Debug, PartialEq, Eq, Structural)]
pub struct RenderParams {
    pub aspect_ratio: i64,
    pub img_width: u32,
    pub img_height: u32,
    pub samples_per_pixel: i32,
    pub depth: i32,
}

impl RenderParams {
    /// Derive the image height from the width and aspect ratio; the bounce
    /// budget defaults to fifty.
    pub fn new(aspect_ratio: i64, img_width: u32, samples_per_pixel: i32) -> (rp: RenderParams)
        requires
            aspect_ratio > 0,
            (img_width as int) * 65536 / (aspect_ratio as int) <= u32::MAX as int,
        ensures
            rp == (RenderParams {
                aspect_ratio,
                img_width,
                img_height: (((img_width as int) * 65536 / (aspect_ratio as int)) as u32),
                samples_per_pixel,
                depth: 50,
            }),
    {
        let h: u64 = ((img_width as u64) * 65536) / (aspect_ratio as u64);
        RenderParams {
            aspect_ratio,
            img_width,
            img_height: h as u32,
            samples_per_pixel,
            depth: 50,
        }
    }
}

/// The executable ray carrying the given origin and direction triples.
pub open spec fn spec_ray_of(origin: V3, dir: V3) -> Ray {
    Ray { origin: crate::vec3::spec_vec3_of(origin), dir: crate::vec3::spec_vec3_of(dir) }
}

/// The radiance of one pixel of the early renders: unjittered image-plane
/// coordinates, the camera ray through them, shaded by the integrator the
/// listing number selects.
pub open spec fn spec_pixel_9_24(
    listing_num: int,
    objs: Seq<Sphere>,
    camera: Camera,
    w: int,
    h: int,
    i: int,
    j: int,
) -> V3 {
    let u = crate::fx::spec_fx_div(i * 65536, (w - 1) * 65536);
    let v = crate::fx::spec_fx_div((h - j) * 65536, (h - 1) * 65536);
    let ray = spec_ray_of(camera.origin.v(), crate::camera::spec_camera_ray(camera.cv(), u, v));
    if listing_num == 9 {
        spec_background(ray)
    } else if listing_num == 10 {
        spec_ray_color_with_sphere(ray)
    } else if listing_num == 11 {
        spec_ray_color_shaded_11(ray)
    } else if listing_num == 12 {
        spec_ray_color_shaded_12(ray)
    } else {
        spec_ray_color_24(ray, objs)
    }
}

/// Render one pixel of the early listings.
fn pixel_9_24(listing_num: i32, world: &HittableList, camera: &Camera, w: u32, h: u32, i: u32, j: u32) -> (c:
    Rgb8)
    requires
        world.wf(),
        2 <= w,
        2 <= h,
        j < h,
    ensures
        c == crate::vec3_img::spec_to_rgb(
            spec_pixel_9_24(
                listing_num as int,
                world.objects@,
                *camera,
                w as int,
                h as int,
                i as int,
                j as int,
            ),
        ),
{
    let u = fx_div((i as i64) * 65536, ((w - 1) as i64) * 65536);
    let v = fx_div(((h - j) as i64) * 65536, ((h - 1) as i64) * 65536);
    let ray = camera.get_ray(u, v);
    proof {
        assert(ray == spec_ray_of(
            camera.origin.v(),
            crate::camera::spec_camera_ray(camera.cv(), u as int, v as int),
        ));
    }
    let c = if listing_num == 9 {
        ray_color_background(&ray)
    } else if listing_num == 10 {
        ray_color_with_sphere(&ray)
    } else if listing_num == 11 {
        ray_color_with_shaded_sphere_11(&ray)
    } else if listing_num == 12 {
        ray_color_with_shaded_sphere_12(&ray)
    } else {
        ray_color_24(&ray, world)
    };
    proof {
        crate::vec3_img::lemma_gamma_byte_range(c.x as int);
        crate::vec3_img::lemma_gamma_byte_range(c.y as int);
        crate::vec3_img::lemma_gamma_byte_range(c.z as int);
    }
    c.to_rgb()
}

/// The early deterministic renders: one unjittered sample per pixel of the
/// two-sphere scene through the default camera, shaded by the selected
/// integrator. Returns the pixel rows top to bottom together with the
/// derived image height; pixel `k` sits at column `k mod width` of row
/// `k / width` and is exactly the specified shading of its camera ray.
pub fn listing_9_24(listing_num: i32, img_width: u32) -> (r: (Vec<Rgb8>, u32))
    requires
        listing_num == 9 || listing_num == 10 || listing_num == 11 || listing_num == 12
            || listing_num == 24,
        4 <= img_width,
    ensures
        r.0@.len() == img_width as int * r.1 as int,
        2 <= r.1,
        forall|k: int|
            0 <= k < r.0@.len() ==> r.0@[k] == crate::vec3_img::spec_to_rgb(
                spec_pixel_9_24(
                    listing_num as int,
                    crate::scenes::spec_two_sphere_objs(),
                    crate::camera::spec_default_camera(),
                    img_width as int,
                    r.1 as int,
                    k % (img_width as int),
                    k / (img_width as int),
                ),
            ),
{
    let world = two_sphere_world();
    let camera = Camera::default();
    let aspect_ratio = fx_div(16 * FX_ONE, 9 * FX_ONE);
    let img_height_64: u64 = ((img_width as u64) * 65536) / (aspect_ratio as u64);
    proof {
        assert(68719476736int / 589824int == 116508int) by (nonlinear_arith);
        assert(aspect_ratio == 116508i64);
        assert(img_width as int * 65536 >= 4 * 65536);
        assert(img_width as int * 65536 / 116508 >= 2) by (nonlinear_arith)
            requires
                img_width as int * 65536 >= 262144,
        ;
        assert(img_width as int * 65536 / 116508 < 0x1_0000_0000) by (nonlinear_arith)
            requires
                img_width as int <= u32::MAX as int,
        ;
    }
    let img_height: u32 = img_height_64 as u32;
    let w = img_width;
    let h = img_height;
    let ln = listing_num;
    let mut pixels: Vec<Rgb8> = Vec::new();
    proof {
        assert(0int * (w as int) == 0) by (nonlinear_arith);
    }
    for j in 0..h
        invariant
            pixels@.len() == j as int * w as int,
            2 <= w,
            2 <= h,
            world.wf(),
            world.objects@ =~= crate::scenes::spec_two_sphere_objs(),
            camera == crate::camera::spec_default_camera(),
            forall|k: int|
                0 <= k < pixels@.len() ==> pixels@[k] == crate::vec3_img::spec_to_rgb(
                    spec_pixel_9_24(
                        ln as int,
                        world.objects@,
                        camera,
                        w as int,
                        h as int,
                        k % (w as int),
                        k / (w as int),
                    ),
                ),
    {
        for i in 0..w
            invariant
                pixels@.len() == j as int * w as int + i as int,
                j < h,
                2 <= w,
                2 <= h,
                world.wf(),
                forall|k: int|
                    0 <= k < pixels@.len() ==> pixels@[k] == crate::vec3_img::spec_to_rgb(
                        spec_pixel_9_24(
                            ln as int,
                            world.objects@,
                            camera,
                            w as int,
                            h as int,
                            k % (w as int),
                            k / (w as int),
                        ),
                    ),
        {
            let c = pixel_9_24(ln, &world, &camera, w, h, i, j);
            proof {
                assert((j as int * w as int + i as int) / (w as int) == j as int && (j as int
                    * w as int + i as int) % (w as int) == i as int) by (nonlinear_arith)
                    requires
                        0 <= i as int,
                        (i as int) < (w as int),
                        0 <= j as int,
                ;
            }
            pixels.push(c);
        }
        proof {
            assert((j as int + 1) * (w as int) == j as int * w as int + w as int)
                by (nonlinear_arith);
        }
    }
    proof {
        assert((h as int) * (w as int) == (w as int) * (h as int)) by (nonlinear_arith);
    }
    (pixels, img_height)
}

/// A pixel of a sampled render: the gamma-corrected mean of an accumulation
/// of `samples` unit-range radiance samples.
pub open spec fn spec_sampled_pixel(px: Rgb8, samples: int) -> bool {
    exists|acc: Vec3|
        0 <= acc.x <= samples * 65536 && 0 <= acc.y <= samples * 65536 && 0 <= acc.z <= samples
            * 65536 && px == crate::vec3_img::spec_to_rgb(
            V3 {
                x: crate::fx::spec_fx_div(acc.x as int, samples * 65536),
                y: crate::fx::spec_fx_div(acc.y as int, samples * 65536),
                z: crate::fx::spec_fx_div(acc.z as int, samples * 65536),
            },
        )
}

/// The sampled renders of the middle chapters: a world and camera chosen by
/// the listing number, many jittered samples per pixel, averaged and
/// gamma-corrected. For every lit listing, each pixel is the gamma-corrected
/// mean of unit-range radiance samples; the normal-shading listing's
/// radiance is exact but not confined to the unit interval, so the clause
/// excludes it.
pub fn listing_30_68(listing_num: i32, rp: RenderParams, rng: &mut rand::rngs::StdRng) -> (pixels:
    Vec<Rgb8>)
    requires
        listing_num == 30 || listing_num == 33 || listing_num == 36 || listing_num == 38 || (49
            <= listing_num <= 68),
        2 <= rp.img_width,
        2 <= rp.img_height,
        1 <= rp.samples_per_pixel,
    ensures
        pixels@.len() == rp.img_width as int * rp.img_height as int,
        listing_num != 30 ==> forall|k: int|
            0 <= k < pixels@.len() ==> spec_sampled_pixel(
                pixels@[k],
                rp.samples_per_pixel as int,
            ),
{
    let world = if listing_num <= 48 {
        two_sphere_world()
    } else if listing_num < 52 {
        four_sphere_world_50()
    } else if listing_num < 55 {
        four_sphere_world_52()
    } else if listing_num < 60 {
        four_sphere_world_55()
    } else if listing_num < 65 {
        four_sphere_world_60()
    } else {
        four_sphere_world_65()
    };

    let camera = if listing_num == 65 {
        Camera::from_lookfrom_at(
            point3(-2 * FX_ONE, 2 * FX_ONE, FX_ONE),
            point3(0, 0, -FX_ONE),
            vec3_(0, FX_ONE, 0),
            TAN_HALF_90,
            rp.aspect_ratio,
        )
    } else if listing_num == 66 {
        Camera::from_lookfrom_at(
            point3(-2 * FX_ONE, 2 * FX_ONE, FX_ONE),
            point3(0, 0, -FX_ONE),
            vec3_(0, FX_ONE, 0),
            TAN_HALF_20,
            rp.aspect_ratio,
        )
    } else {
        Camera::default()
    };

    let w = rp.img_width;
    let h = rp.img_height;
    let mut pixels: Vec<Rgb8> = Vec::new();
    proof {
        assert(0int * (w as int) == 0) by (nonlinear_arith);
    }
    for j in 0..h
        invariant
            pixels@.len() == j as int * w as int,
            2 <= w,
            2 <= h,
            1 <= rp.samples_per_pixel,
            world.wf(),
            listing_num != 30 ==> forall|k: int|
                0 <= k < pixels@.len() ==> spec_sampled_pixel(
                    pixels@[k],
                    rp.samples_per_pixel as int,
                ),
    {
        for i in 0..w
            invariant
                pixels@.len() == j as int * w as int + i as int,
                j < h,
                2 <= w,
                2 <= h,
                1 <= rp.samples_per_pixel,
                world.wf(),
                listing_num != 30 ==> forall|k: int|
                    0 <= k < pixels@.len() ==> spec_sampled_pixel(
                        pixels@[k],
                        rp.samples_per_pixel as int,
                    ),
        {
            let mut pixel_color = color(0, 0, 0);
            let mut s: i32 = 0;
            while s < rp.samples_per_pixel
                invariant
                    0 <= s <= rp.samples_per_pixel,
                    j < h,
                    i < w,
                    2 <= w,
                    2 <= h,
                    world.wf(),
                    listing_num != 30 ==> 0 <= pixel_color.x <= s as int * 65536,
                    listing_num != 30 ==> 0 <= pixel_color.y <= s as int * 65536,
                    listing_num != 30 ==> 0 <= pixel_color.z <= s as int * 65536,
                decreases rp.samples_per_pixel - s,
            {
                let u = fx_div(
                    (i as i64) * 65536 + random_unif_1(rng),
                    ((w - 1) as i64) * 65536,
                );
                let v = fx_div(
                    ((h - j) as i64) * 65536 + random_unif_1(rng),
                    ((h - 1) as i64) * 65536,
                );
                let ray = camera.get_ray(u, v);
                let rc = if listing_num == 30 {
                    ray_color_24(&ray, &world)
                } else if listing_num == 33 {
                    ray_color_33(&ray, rng, &world, rp.depth)
                } else if listing_num == 36 {
                    ray_color_36(&ray, rng, &world, rp.depth)
                } else if listing_num == 38 {
                    ray_color_38(&ray, rng, &world, rp.depth)
                } else {
                    ray_color_49(&ray, rng, &world, rp.depth)
                };
                pixel_color.add_assign(&rc);
                proof {
                    if listing_num != 30 {
                        assert(0 <= pixel_color.x <= (s as int + 1) * 65536 && 0 <= pixel_color.y
                            <= (s as int + 1) * 65536 && 0 <= pixel_color.z <= (s as int + 1)
                            * 65536);
                    }
                }
                s = s + 1;
            }
            let px = pixel_color.to_rgb_sampled(rp.samples_per_pixel);
            proof {
                if listing_num != 30 {
                    crate::vec3_img::lemma_gamma_byte_range(
                        crate::fx::spec_fx_div(
                            pixel_color.x as int,
                            rp.samples_per_pixel as int * 65536,
                        ),
                    );
                    crate::vec3_img::lemma_gamma_byte_range(
                        crate::fx::spec_fx_div(
                            pixel_color.y as int,
                            rp.samples_per_pixel as int * 65536,
                        ),
                    );
                    crate::vec3_img::lemma_gamma_byte_range(
                        crate::fx::spec_fx_div(
                            pixel_color.z as int,
                            rp.samples_per_pixel as int * 65536,
                        ),
                    );
                    assert(0 <= pixel_color.x <= rp.samples_per_pixel as int * 65536 && 0
                        <= pixel_color.y <= rp.samples_per_pixel as int * 65536 && 0
                        <= pixel_color.z <= rp.samples_per_pixel as int * 65536 && px
                        == crate::vec3_img::spec_to_rgb(
                        V3 {
                            x: crate::fx::spec_fx_div(
                                pixel_color.x as int,
                                rp.samples_per_pixel as int * 65536,
                            ),
                            y: crate::fx::spec_fx_div(
                                pixel_color.y as int,
                                rp.samples_per_pixel as int * 65536,
                            ),
                            z: crate::fx::spec_fx_div(
                                pixel_color.z as int,
                                rp.samples_per_pixel as int * 65536,
                            ),
                        },
                    ));
                    assert(spec_sampled_pixel(px, rp.samples_per_pixel as int));
                }
            }
            pixels.push(px);
        }
        proof {
            assert((j as int + 1) * (w as int) == j as int * w as int + w as int)
                by (nonlinear_arith);
        }
    }
    proof {
        assert((h as int) * (w as int) == (w as int) * (h as int)) by (nonlinear_arith);
    }
    pixels
}

/// The final renders: a depth-of-field camera over the chosen world, many
/// jittered samples per pixel; each pixel is the gamma-corrected mean of
/// unit-range radiance samples.
pub fn listing_69_(listing_num: i32, rp: RenderParams, rng: &mut rand::rngs::StdRng) -> (pixels:
    Vec<Rgb8>)
    requires
        listing_num == 69 || listing_num == 70 || listing_num == 71,
        2 <= rp.img_width,
        2 <= rp.img_height,
        1 <= rp.samples_per_pixel,
    ensures
        pixels@.len() == rp.img_width as int * rp.img_height as int,
        forall|k: int|
            0 <= k < pixels@.len() ==> spec_sampled_pixel(
                pixels@[k],
                rp.samples_per_pixel as int,
            ),
{
    let world = if listing_num == 69 {
        four_sphere_world_65()
    } else if listing_num == 70 {
        many_sphere_world_70(rng)
    } else {
        marble_v1(rng)
    };

    let camera = if listing_num == 70 || listing_num == 71 {
        CameraWithFocus::new(
            &point3(13 * FX_ONE, 2 * FX_ONE, 3 * FX_ONE),
            &point3(0, 0, 0),
            vec3_(0, FX_ONE, 0),
            TAN_HALF_20,
            rp.aspect_ratio,
            // aperture 0.1, focus distance 10
            6554,
            10 * FX_ONE,
        )
    } else {
        let lookfrom = point3(3 * FX_ONE, 3 * FX_ONE, 2 * FX_ONE);
        let lookat = point3(0, 0, -FX_ONE);
        let focus = lookfrom.sub(&lookat).length();
        CameraWithFocus::new(
            &lookfrom,
            &lookat,
            vec3_(0, FX_ONE, 0),
            TAN_HALF_20,
            rp.aspect_ratio,
            // aperture 2.0
            2 * FX_ONE,
            focus,
        )
    };

    let w = rp.img_width;
    let h = rp.img_height;
    let mut pixels: Vec<Rgb8> = Vec::new();
    proof {
        assert(0int * (w as int) == 0) by (nonlinear_arith);
    }
    for j in 0..h
        invariant
            pixels@.len() == j as int * w as int,
            2 <= w,
            2 <= h,
            1 <= rp.samples_per_pixel,
            world.wf(),
            forall|k: int|
                0 <= k < pixels@.len() ==> spec_sampled_pixel(
                    pixels@[k],
                    rp.samples_per_pixel as int,
                ),
    {
        for i in 0..w
            invariant
                pixels@.len() == j as int * w as int + i as int,
                j < h,
                2 <= w,
                2 <= h,
                1 <= rp.samples_per_pixel,
                world.wf(),
                forall|k: int|
                    0 <= k < pixels@.len() ==> spec_sampled_pixel(
                        pixels@[k],
                        rp.samples_per_pixel as int,
                    ),
        {
            let mut pixel_color = color(0, 0, 0);
            let mut s: i32 = 0;
            while s < rp.samples_per_pixel
                invariant
                    0 <= s <= rp.samples_per_pixel,
                    j < h,
                    i < w,
                    2 <= w,
                    2 <= h,
                    world.wf(),
                    0 <= pixel_color.x <= s as int * 65536,
                    0 <= pixel_color.y <= s as int * 65536,
                    0 <= pixel_color.z <= s as int * 65536,
                decreases rp.samples_per_pixel - s,
            {
                let u = fx_div(
                    (i as i64) * 65536 + random_unif_1(rng),
                    ((w - 1) as i64) * 65536,
                );
                let v = fx_div(
                    ((h - j) as i64) * 65536 + random_unif_1(rng),
                    ((h - 1) as i64) * 65536,
                );
                let ray = camera.get_ray(u, v, rng);
                let rc = if listing_num <= 70 {
                    ray_color_49(&ray, rng, &world, rp.depth)
                } else {
                    ray_color_71(&ray, rng, &world, rp.depth)
                };
                pixel_color.add_assign(&rc);
                proof {
                    assert(0 <= pixel_color.x <= (s as int + 1) * 65536 && 0 <= pixel_color.y <= (
                    s as int + 1) * 65536 && 0 <= pixel_color.z <= (s as int + 1) * 65536);
                }
                s = s + 1;
            }
            let px = pixel_color.to_rgb_sampled(rp.samples_per_pixel);
            proof {
                crate::vec3_img::lemma_gamma_byte_range(
                    crate::fx::spec_fx_div(
                        pixel_color.x as int,
                        rp.samples_per_pixel as int * 65536,
                    ),
                );
                crate::vec3_img::lemma_gamma_byte_range(
                    crate::fx::spec_fx_div(
                        pixel_color.y as int,
                        rp.samples_per_pixel as int * 65536,
                    ),
                );
                crate::vec3_img::lemma_gamma_byte_range(
                    crate::fx::spec_fx_div(
                        pixel_color.z as int,
                        rp.samples_per_pixel as int * 65536,
                    ),
                );
                assert(0 <= pixel_color.x <= rp.samples_per_pixel as int * 65536 && 0
                    <= pixel_color.y <= rp.samples_per_pixel as int * 65536 && 0 <= pixel_color.z
                    <= rp.samples_per_pixel as int * 65536 && px == crate::vec3_img::spec_to_rgb(
                    V3 {
                        x: crate::fx::spec_fx_div(
                            pixel_color.x as int,
                            rp.samples_per_pixel as int * 65536,
                        ),
                        y: crate::fx::spec_fx_div(
                            pixel_color.y as int,
                            rp.samples_per_pixel as int * 65536,
                        ),
                        z: crate::fx::spec_fx_div(
                            pixel_color.z as int,
                            rp.samples_per_pixel as int * 65536,
                        ),
                    },
                ));
                assert(spec_sampled_pixel(px, rp.samples_per_pixel as int));
            }
            pixels.push(px);
        }
        proof {
            assert((j as int + 1) * (w as int) == j as int * w as int + w as int)
                by (nonlinear_arith);
        }
    }
    proof {
        assert((h as int) * (w as int) == (w as int) * (h as int)) by (nonlinear_arith);
    }
    pixels
}

} // verus!
