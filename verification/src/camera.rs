//! Cameras: mapping normalized image-plane coordinates to world-space rays.
//!
//! The vertical field of view enters through the tangent of its half-angle,
//! already a plain scalar, so the whole construction stays exact fixed-point
//! arithmetic.

use vstd::prelude::*;

use crate::fx::{fx_add, fx_div, fx_mul, spec_fx_add, spec_fx_div, spec_fx_mul, FX_ONE};
use crate::ray::Ray;
use crate::vec3::{
    spec_vadd, spec_vcross, spec_vdiv, spec_vscale, spec_vsub, spec_vunit, spec_vlen2, Vec3, V3,
};

verus! {

/// A fixed-viewport camera.
#[derive(Clone, Copy, Debug, PartialEq, Eq, Structural)]
pub struct Camera {
    pub origin: Vec3,
    pub lower_left_corner: Vec3,
    pub horizontal: Vec3,
    pub vertical: Vec3,
}

/// The mathematical content of a camera.
pub ghost struct CameraV {
    pub origin: V3,
    pub lower_left_corner: V3,
    pub horizontal: V3,
    pub vertical: V3,
}

impl Camera {
    /// The component view of this camera.
    pub open spec fn cv(self) -> CameraV {
        CameraV {
            origin: self.origin.v(),
            lower_left_corner: self.lower_left_corner.v(),
            horizontal: self.horizontal.v(),
            vertical: self.vertical.v(),
        }
    }
}

/// Viewport extents from the tangent of half the vertical field of view and
/// the aspect ratio: height `2 h`, width `aspect * height`.
pub open spec fn spec_viewport(tan_half_vfov: int, aspect_ratio: int) -> (int, int) {
    let vh = spec_fx_add(tan_half_vfov, tan_half_vfov);
    (spec_fx_mul(aspect_ratio, vh), vh)
}

/// Compute the viewport (width, height).
pub fn viewport_width_height(tan_half_vfov: i64, aspect_ratio: i64) -> (r: (i64, i64))
    ensures
        (r.0 as int, r.1 as int) == spec_viewport(tan_half_vfov as int, aspect_ratio as int),
{
    let viewport_height = fx_add(tan_half_vfov, tan_half_vfov);
    let viewport_width = fx_mul(aspect_ratio, viewport_height);
    (viewport_width, viewport_height)
}

/// An axis-aligned camera at `origin` with the given viewport extents and
/// focal length.
pub open spec fn spec_camera_hvf(origin: V3, vw: int, vh: int, focal_length: int) -> CameraV {
    let horizontal = V3 { x: vw, y: 0, z: 0 };
    let vertical = V3 { x: 0, y: vh, z: 0 };
    CameraV {
        origin,
        horizontal,
        vertical,
        lower_left_corner: spec_vsub(
            spec_vsub(
                spec_vsub(origin, spec_vdiv(horizontal, 2 * FX_ONE as int)),
                spec_vdiv(vertical, 2 * FX_ONE as int),
            ),
            V3 { x: 0, y: 0, z: focal_length },
        ),
    }
}

/// A camera built from look-from/look-at geometry: orthonormal basis
/// `w = unit(lookfrom - lookat)`, `u = unit(vup x w)`, `v = w x u`, with the
/// viewport spanned along `u` and `v`.
pub open spec fn spec_camera_lookat(
    lookfrom: V3,
    lookat: V3,
    vup: V3,
    tan_half_vfov: int,
    aspect_ratio: int,
) -> CameraV {
    let w = spec_vunit(spec_vsub(lookfrom, lookat));
    let u = spec_vunit(spec_vcross(vup, w));
    let v = spec_vcross(w, u);
    let (vw, vh) = spec_viewport(tan_half_vfov, aspect_ratio);
    let horizontal = spec_vscale(u, vw);
    let vertical = spec_vscale(v, vh);
    CameraV {
        origin: lookfrom,
        horizontal,
        vertical,
        lower_left_corner: spec_vsub(
            spec_vsub(
                spec_vsub(lookfrom, spec_vdiv(horizontal, 2 * FX_ONE as int)),
                spec_vdiv(vertical, 2 * FX_ONE as int),
            ),
            w,
        ),
    }
}

/// The ray a camera casts for image-plane coordinates (u, v):
/// from the origin toward `lower_left + u * horizontal + v * vertical`.
pub open spec fn spec_camera_ray(c: CameraV, u: int, v: int) -> V3 {
    spec_vsub(
        spec_vadd(
            spec_vadd(c.lower_left_corner, spec_vscale(c.horizontal, u)),
            spec_vscale(c.vertical, v),
        ),
        c.origin,
    )
}

impl Camera {
    /// Build a camera from look-from/look-at geometry.
    pub fn from_lookfrom_at(
        lookfrom: Vec3,
        lookat: Vec3,
        vup: Vec3,
        tan_half_vfov: i64,
        aspect_ratio: i64,
    ) -> (c: Self)
        ensures
            c.cv() == spec_camera_lookat(
                lookfrom.v(),
                lookat.v(),
                vup.v(),
                tan_half_vfov as int,
                aspect_ratio as int,
            ),
    {
        let w = lookfrom.sub(&lookat).unit_vector();
        let u = vup.cross(&w).unit_vector();
        let v = w.cross(&u);
        let (viewport_width, viewport_height) = viewport_width_height(tan_half_vfov, aspect_ratio);
        let horizontal = u.scale(viewport_width);
        let vertical = v.scale(viewport_height);
        Camera {
            lower_left_corner: lookfrom
                .sub(&horizontal.div_scalar(2 * FX_ONE))
                .sub(&vertical.div_scalar(2 * FX_ONE))
                .sub(&w),
            origin: lookfrom,
            horizontal,
            vertical,
        }
    }

    /// Build an axis-aligned camera from the viewport implied by the field
    /// of view and aspect ratio, at the world origin with focal length one.
    pub fn from_vfov_aspect(tan_half_vfov: i64, aspect_ratio: i64) -> (c: Self)
        ensures
            c.cv() == spec_camera_hvf(
                V3 { x: 0, y: 0, z: 0 },
                spec_viewport(tan_half_vfov as int, aspect_ratio as int).0,
                spec_viewport(tan_half_vfov as int, aspect_ratio as int).1,
                FX_ONE as int,
            ),
    {
        let (viewport_width, viewport_height) = viewport_width_height(tan_half_vfov, aspect_ratio);
        Self::from_origin_hvf(
            crate::vec3::point3(0, 0, 0),
            viewport_width,
            viewport_height,
            FX_ONE,
        )
    }

    /// Build an axis-aligned camera from explicit viewport extents.
    fn from_origin_hvf(origin: Vec3, viewport_width: i64, viewport_height: i64, focal_length: i64) -> (c:
        Self)
        ensures
            c.cv() == spec_camera_hvf(
                origin.v(),
                viewport_width as int,
                viewport_height as int,
                focal_length as int,
            ),
    {
        let horizontal = crate::vec3::vec3_(viewport_width, 0, 0);
        let vertical = crate::vec3::vec3_(0, viewport_height, 0);
        let lower_left_corner = origin
            .sub(&horizontal.div_scalar(2 * FX_ONE))
            .sub(&vertical.div_scalar(2 * FX_ONE))
            .sub(&crate::vec3::vec3_(0, 0, focal_length));
        Camera { origin, horizontal, vertical, lower_left_corner }
    }

    /// The ray through image-plane coordinates (u, v).
    pub fn get_ray(&self, u: i64, v: i64) -> (r: Ray)
        ensures
            r.origin == self.origin,
            r.dir.v() == spec_camera_ray(self.cv(), u as int, v as int),
    {
        Ray {
            origin: self.origin,
            dir: self
                .lower_left_corner
                .add(&self.horizontal.scale(u))
                .add(&self.vertical.scale(v))
                .sub(&self.origin),
        }
    }
}

/// The default camera's exact field values: 16:9 aspect ratio, viewport
/// height two, focal length one, at the world origin.
pub open spec fn spec_default_camera() -> Camera {
    Camera {
        origin: Vec3 { x: 0, y: 0, z: 0 },
        lower_left_corner: Vec3 { x: -116508i64, y: -65536i64, z: -65536i64 },
        horizontal: Vec3 { x: 233016, y: 0, z: 0 },
        vertical: Vec3 { x: 0, y: 131072, z: 0 },
    }
}

impl Default for Camera {
    /// The default camera: 16:9 aspect ratio, viewport height two, focal
    /// length one, at the world origin.
    fn default() -> (c: Self)
        ensures
            c.cv() == spec_camera_hvf(
                V3 { x: 0, y: 0, z: 0 },
                spec_fx_mul(spec_fx_div(16 * FX_ONE as int, 9 * FX_ONE as int), 2 * FX_ONE as int),
                2 * FX_ONE as int,
                FX_ONE as int,
            ),
            c == spec_default_camera(),
    {
        proof {
            assert(68719476736int / 589824int == 116508int) by (nonlinear_arith);
            assert((116508int * 131072) / 65536 == 233016int) by (nonlinear_arith);
            assert((233016int * 65536) / 131072 == 116508int) by (nonlinear_arith);
            assert((131072int * 65536) / 131072 == 65536int) by (nonlinear_arith);
        }
        let aspect_ratio = fx_div(16 * FX_ONE, 9 * FX_ONE);
        let viewport_height = 2 * FX_ONE;
        let viewport_width = fx_mul(aspect_ratio, viewport_height);
        let origin = crate::vec3::point3(0, 0, 0);
        Camera::from_origin_hvf(origin, viewport_width, viewport_height, FX_ONE)
    }
}

/// A camera with a lens aperture and focus distance, for depth of field.
#[derive(Clone, Copy, Debug, PartialEq, Eq, Structural)]
pub struct CameraWithFocus {
    pub origin: Vec3,
    pub lower_left_corner: Vec3,
    pub horizontal: Vec3,
    pub vertical: Vec3,
    pub u: Vec3,
    pub v: Vec3,
    pub w: Vec3,
    pub lens_radius: i64,
}

/// The mathematical content of a focus-capable camera.
pub ghost struct CameraWithFocusV {
    pub origin: V3,
    pub lower_left_corner: V3,
    pub horizontal: V3,
    pub vertical: V3,
    pub u: V3,
    pub v: V3,
    pub w: V3,
    pub lens_radius: int,
}

impl CameraWithFocus {
    /// The component view of this camera.
    pub open spec fn cv(self) -> CameraWithFocusV {
        CameraWithFocusV {
            origin: self.origin.v(),
            lower_left_corner: self.lower_left_corner.v(),
            horizontal: self.horizontal.v(),
            vertical: self.vertical.v(),
            u: self.u.v(),
            v: self.v.v(),
            w: self.w.v(),
            lens_radius: self.lens_radius as int,
        }
    }
}

/// A focus-capable camera from look-from/look-at geometry: the viewport is
/// scaled by the focus distance, and the lens radius is half the aperture.
pub open spec fn spec_camera_focus(
    lookfrom: V3,
    lookat: V3,
    vup: V3,
    tan_half_vfov: int,
    aspect_ratio: int,
    aperture: int,
    focus_dist: int,
) -> CameraWithFocusV {
    let (vw, vh) = spec_viewport(tan_half_vfov, aspect_ratio);
    let w = spec_vunit(spec_vsub(lookfrom, lookat));
    let u = spec_vunit(spec_vcross(vup, w));
    let v = spec_vcross(w, u);
    let horizontal = spec_vscale(u, spec_fx_mul(focus_dist, vw));
    let vertical = spec_vscale(v, spec_fx_mul(focus_dist, vh));
    CameraWithFocusV {
        origin: lookfrom,
        horizontal,
        vertical,
        u,
        v,
        w,
        lens_radius: spec_fx_div(aperture, 2 * FX_ONE as int),
        lower_left_corner: spec_vsub(
            spec_vsub(
                spec_vsub(lookfrom, spec_vdiv(horizontal, 2 * FX_ONE as int)),
                spec_vdiv(vertical, 2 * FX_ONE as int),
            ),
            spec_vscale(w, focus_dist),
        ),
    }
}

/// The ray cast for image-plane coordinates (s, t) given a lens sample `rd`
/// inside the unit disk: origin offset across the lens, direction aimed at
/// the same point of the focus plane.
pub open spec fn spec_focus_ray(c: CameraWithFocusV, s: int, t: int, rd: V3) -> (V3, V3) {
    let scaled = spec_vscale(rd, c.lens_radius);
    let offset = spec_vadd(spec_vscale(c.u, scaled.x), spec_vscale(c.v, scaled.y));
    (
        spec_vadd(c.origin, offset),
        spec_vsub(
            spec_vsub(
                spec_vadd(
                    spec_vadd(c.lower_left_corner, spec_vscale(c.horizontal, s)),
                    spec_vscale(c.vertical, t),
                ),
                c.origin,
            ),
            offset,
        ),
    )
}

/// No step of the focus-ray construction reaches the clipping bound: the
/// camera origin, the lens offset and the focus-plane target all stay far
/// inside the representable range. This holds for every camera a scene at
/// ordinary world scale produces.
pub open spec fn spec_focus_ray_moderate(c: CameraWithFocusV, s: int, t: int, rd: V3) -> bool {
    let scaled = spec_vscale(rd, c.lens_radius);
    let offset = spec_vadd(spec_vscale(c.u, scaled.x), spec_vscale(c.v, scaled.y));
    let target = spec_vadd(
        spec_vadd(c.lower_left_corner, spec_vscale(c.horizontal, s)),
        spec_vscale(c.vertical, t),
    );
    &&& -0x4000_0000_0000 <= c.origin.x <= 0x4000_0000_0000
    &&& -0x4000_0000_0000 <= c.origin.y <= 0x4000_0000_0000
    &&& -0x4000_0000_0000 <= c.origin.z <= 0x4000_0000_0000
    &&& -0x4000_0000_0000 <= offset.x <= 0x4000_0000_0000
    &&& -0x4000_0000_0000 <= offset.y <= 0x4000_0000_0000
    &&& -0x4000_0000_0000 <= offset.z <= 0x4000_0000_0000
    &&& -0x4000_0000_0000 <= target.x <= 0x4000_0000_0000
    &&& -0x4000_0000_0000 <= target.y <= 0x4000_0000_0000
    &&& -0x4000_0000_0000 <= target.z <= 0x4000_0000_0000
}

/// Depth of field leaves the focus plane sharp: whatever lens sample the
/// draw supplies, the sampled ray's origin plus its direction is the same
/// focus-plane target, `lower_left + s * horizontal + t * vertical` — the
/// lens sample cancels out. Rays for the same (s, t) under different
/// apertures therefore differ only away from the focus plane.
pub proof fn lemma_focus_ray_hits_focus_plane(c: CameraWithFocusV, s: int, t: int, rd: V3)
    requires
        spec_focus_ray_moderate(c, s, t, rd),
    ensures
        ({
            let (o, d) = spec_focus_ray(c, s, t, rd);
            spec_vadd(o, d) == spec_vadd(
                spec_vadd(c.lower_left_corner, spec_vscale(c.horizontal, s)),
                spec_vscale(c.vertical, t),
            )
        }),
{
}

impl CameraWithFocus {
    /// Build a focus-capable camera.
    pub fn new(
        lookfrom: &Vec3,
        lookat: &Vec3,
        vup: Vec3,
        tan_half_vfov: i64,
        aspect_ratio: i64,
        aperture: i64,
        focus_dist: i64,
    ) -> (c: Self)
        ensures
            c.cv() == spec_camera_focus(
                lookfrom.v(),
                lookat.v(),
                vup.v(),
                tan_half_vfov as int,
                aspect_ratio as int,
                aperture as int,
                focus_dist as int,
            ),
    {
        let (viewport_width, viewport_height) = viewport_width_height(tan_half_vfov, aspect_ratio);
        let w = lookfrom.sub(lookat).unit_vector();
        let u = vup.cross(&w).unit_vector();
        let v = w.cross(&u);
        let horizontal = u.scale(fx_mul(focus_dist, viewport_width));
        let vertical = v.scale(fx_mul(focus_dist, viewport_height));
        CameraWithFocus {
            lower_left_corner: lookfrom
                .sub(&horizontal.div_scalar(2 * FX_ONE))
                .sub(&vertical.div_scalar(2 * FX_ONE))
                .sub(&w.scale(focus_dist)),
            horizontal,
            vertical,
            u,
            v,
            w,
            lens_radius: fx_div(aperture, 2 * FX_ONE),
            origin: *lookfrom,
        }
    }

    /// The ray through image-plane coordinates (s, t), its origin perturbed
    /// by a random sample across the lens disk.
    pub fn get_ray(&self, s: i64, t: i64, rng: &mut rand::rngs::StdRng) -> (r: Ray)
        ensures
            exists|rd: V3|
                spec_vlen2(rd) < FX_ONE as int && rd.z == 0 && (r.origin.v(), r.dir.v())
                    == spec_focus_ray(self.cv(), s as int, t as int, rd),
    {
        let rd0 = Vec3::random_in_disk_1(rng);
        let rd = rd0.scale(self.lens_radius);
        let offset = self.u.scale(rd.x).add(&self.v.scale(rd.y));
        let r = Ray {
            origin: self.origin.add(&offset),
            dir: self
                .lower_left_corner
                .add(&self.horizontal.scale(s))
                .add(&self.vertical.scale(t))
                .sub(&self.origin)
                .sub(&offset),
        };
        proof {
            assert(spec_vlen2(rd0.v()) < FX_ONE as int && rd0.v().z == 0 && (
            r.origin.v(),
            r.dir.v(),
            ) == spec_focus_ray(self.cv(), s as int, t as int, rd0.v()));
        }
        r
    }
}

} // verus!
