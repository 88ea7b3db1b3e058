//! Three-component fixed-point vectors.
//!
//! One representation serves as geometric point, direction and RGB color
//! alike; arithmetic, not type, distinguishes the uses. Every executable
//! operation is specified exactly by a spec-level counterpart acting on the
//! mathematical component triple `V3`.

use vstd::prelude::*;

use crate::fx::{
    fx_add, fx_clip, fx_div, fx_mul, fx_neg, fx_sqrt, fx_sub, spec_fx_add, spec_fx_div,
    spec_fx_mul, spec_fx_neg, spec_fx_sqrt, spec_fx_sub, FX_HALF, FX_ONE,
};

verus! {

/// A vector of three fixed-point scalars.
#[derive(Clone, Copy, Debug, PartialEq, Eq, Structural)]
pub struct Vec3 {
    pub x: i64,
    pub y: i64,
    pub z: i64,
}

/// A point in space: deliberately the same representation as a vector.
pub type Point3 = Vec3;

/// An RGB color triple: deliberately the same representation as a vector.
pub type Color = Vec3;

/// The mathematical value of a vector: its components as unbounded integers.
pub ghost struct V3 {
    pub x: int,
    pub y: int,
    pub z: int,
}

impl Vec3 {
    /// The component triple this vector stands for.
    pub open spec fn v(self) -> V3 {
        V3 { x: self.x as int, y: self.y as int, z: self.z as int }
    }
}

/// The executable vector carrying a component triple; meaningful when every
/// component lies in the representable range, as every clipped result does.
pub open spec fn spec_vec3_of(v: V3) -> Vec3 {
    Vec3 { x: v.x as i64, y: v.y as i64, z: v.z as i64 }
}

/// Build a vector from its components.
pub fn vec3_(x: i64, y: i64, z: i64) -> (r: Vec3)
    ensures
        r == (Vec3 { x, y, z }),
{
    Vec3 { x, y, z }
}

/// Build a color triple; same representation as any other vector.
pub fn color(r: i64, g: i64, b: i64) -> (c: Vec3)
    ensures
        c == (Vec3 { x: r, y: g, z: b }),
{
    Vec3 { x: r, y: g, z: b }
}

/// Build a point; same representation as any other vector.
pub fn point3(x: i64, y: i64, z: i64) -> (r: Vec3)
    ensures
        r == (Vec3 { x, y, z }),
{
    Vec3 { x, y, z }
}

impl Default for Vec3 {
    /// The zero vector.
    fn default() -> (r: Self)
        ensures
            r == (Vec3 { x: 0, y: 0, z: 0 }),
    {
        Vec3 { x: 0, y: 0, z: 0 }
    }
}

/// Component-wise sum.
pub open spec fn spec_vadd(a: V3, b: V3) -> V3 {
    V3 {
        x: spec_fx_add(a.x, b.x),
        y: spec_fx_add(a.y, b.y),
        z: spec_fx_add(a.z, b.z),
    }
}

/// Component-wise difference.
pub open spec fn spec_vsub(a: V3, b: V3) -> V3 {
    V3 {
        x: spec_fx_sub(a.x, b.x),
        y: spec_fx_sub(a.y, b.y),
        z: spec_fx_sub(a.z, b.z),
    }
}

/// Component-wise product.
pub open spec fn spec_vmul(a: V3, b: V3) -> V3 {
    V3 {
        x: spec_fx_mul(a.x, b.x),
        y: spec_fx_mul(a.y, b.y),
        z: spec_fx_mul(a.z, b.z),
    }
}

/// Scaling by a scalar.
pub open spec fn spec_vscale(a: V3, s: int) -> V3 {
    V3 {
        x: spec_fx_mul(a.x, s),
        y: spec_fx_mul(a.y, s),
        z: spec_fx_mul(a.z, s),
    }
}

/// Division by a scalar.
pub open spec fn spec_vdiv(a: V3, s: int) -> V3
    recommends
        s != 0,
{
    V3 {
        x: spec_fx_div(a.x, s),
        y: spec_fx_div(a.y, s),
        z: spec_fx_div(a.z, s),
    }
}

/// Component-wise negation.
pub open spec fn spec_vneg(a: V3) -> V3 {
    V3 { x: spec_fx_neg(a.x), y: spec_fx_neg(a.y), z: spec_fx_neg(a.z) }
}

/// Dot product, summed left to right.
pub open spec fn spec_vdot(a: V3, b: V3) -> int {
    spec_fx_add(
        spec_fx_add(spec_fx_mul(a.x, b.x), spec_fx_mul(a.y, b.y)),
        spec_fx_mul(a.z, b.z),
    )
}

/// Cross product.
pub open spec fn spec_vcross(a: V3, b: V3) -> V3 {
    V3 {
        x: spec_fx_sub(spec_fx_mul(a.y, b.z), spec_fx_mul(a.z, b.y)),
        y: spec_fx_sub(spec_fx_mul(a.z, b.x), spec_fx_mul(a.x, b.z)),
        z: spec_fx_sub(spec_fx_mul(a.x, b.y), spec_fx_mul(a.y, b.x)),
    }
}

/// Squared length.
pub open spec fn spec_vlen2(a: V3) -> int {
    spec_vdot(a, a)
}

/// Length: the fixed-point square root of the squared length.
pub open spec fn spec_vlen(a: V3) -> int {
    spec_fx_sqrt(spec_vlen2(a))
}

/// A vector counts as near zero when all components vanish: any tolerance
/// below the smallest positive fixed-point scalar degenerates to exact zero.
pub open spec fn spec_vnear_zero(a: V3) -> bool {
    a.x == 0 && a.y == 0 && a.z == 0
}

/// The unit vector: the vector divided by its length, or the vector itself
/// when the length is zero (guarding the degenerate division).
pub open spec fn spec_vunit(a: V3) -> V3 {
    if spec_vlen(a) == 0 {
        a
    } else {
        spec_vdiv(a, spec_vlen(a))
    }
}

/// Mirror reflection about a normal: `v - 2 (v . n) n`.
pub open spec fn spec_vreflect(v: V3, n: V3) -> V3 {
    spec_vsub(v, spec_vscale(n, spec_fx_add(spec_vdot(v, n), spec_vdot(v, n))))
}

/// Refraction by Snell's law, decomposed into components perpendicular and
/// parallel to the normal; `uv` is expected to be a unit incident vector.
pub open spec fn spec_vrefract(uv: V3, n: V3, etai_over_etat: int) -> V3 {
    let c0 = spec_fx_neg(spec_vdot(uv, n));
    let cos_theta = if c0 > FX_ONE as int {
        FX_ONE as int
    } else {
        c0
    };
    let perp = spec_vscale(spec_vadd(uv, spec_vscale(n, cos_theta)), etai_over_etat);
    let k = spec_fx_sub(FX_ONE as int, spec_vlen2(perp));
    let kk = if k < 0 {
        spec_fx_neg(k)
    } else {
        k
    };
    spec_vadd(perp, spec_vscale(n, spec_fx_neg(crate::fx::spec_fx_sqrt(kk))))
}

impl Vec3 {
    /// Squared length.
    pub fn length_squared(&self) -> (r: i64)
        ensures
            r as int == spec_vlen2(self.v()),
    {
        let mx = fx_mul(self.x, self.x);
        let my = fx_mul(self.y, self.y);
        let mz = fx_mul(self.z, self.z);
        fx_add(fx_add(mx, my), mz)
    }

    /// Length.
    pub fn length(&self) -> (r: i64)
        ensures
            r as int == spec_vlen(self.v()),
            r >= 0,
    {
        proof {
            lemma_vlen2_nonneg(self.v());
        }
        fx_sqrt(self.length_squared())
    }

    /// Dot product.
    pub fn dot(&self, rhs: &Self) -> (r: i64)
        ensures
            r as int == spec_vdot(self.v(), rhs.v()),
    {
        let mx = fx_mul(self.x, rhs.x);
        let my = fx_mul(self.y, rhs.y);
        let mz = fx_mul(self.z, rhs.z);
        fx_add(fx_add(mx, my), mz)
    }

    /// Cross product.
    pub fn cross(&self, rhs: &Self) -> (r: Vec3)
        ensures
            r.v() == spec_vcross(self.v(), rhs.v()),
    {
        Vec3 {
            x: fx_sub(fx_mul(self.y, rhs.z), fx_mul(self.z, rhs.y)),
            y: fx_sub(fx_mul(self.z, rhs.x), fx_mul(self.x, rhs.z)),
            z: fx_sub(fx_mul(self.x, rhs.y), fx_mul(self.y, rhs.x)),
        }
    }

    /// Component-wise sum.
    pub fn add(&self, rhs: &Self) -> (r: Vec3)
        ensures
            r.v() == spec_vadd(self.v(), rhs.v()),
    {
        Vec3 {
            x: fx_add(self.x, rhs.x),
            y: fx_add(self.y, rhs.y),
            z: fx_add(self.z, rhs.z),
        }
    }

    /// Component-wise difference.
    pub fn sub(&self, rhs: &Self) -> (r: Vec3)
        ensures
            r.v() == spec_vsub(self.v(), rhs.v()),
    {
        Vec3 {
            x: fx_sub(self.x, rhs.x),
            y: fx_sub(self.y, rhs.y),
            z: fx_sub(self.z, rhs.z),
        }
    }

    /// Component-wise product.
    pub fn mul(&self, rhs: &Self) -> (r: Vec3)
        ensures
            r.v() == spec_vmul(self.v(), rhs.v()),
    {
        Vec3 {
            x: fx_mul(self.x, rhs.x),
            y: fx_mul(self.y, rhs.y),
            z: fx_mul(self.z, rhs.z),
        }
    }

    /// Scaling by a scalar.
    pub fn scale(&self, s: i64) -> (r: Vec3)
        ensures
            r.v() == spec_vscale(self.v(), s as int),
    {
        Vec3 { x: fx_mul(self.x, s), y: fx_mul(self.y, s), z: fx_mul(self.z, s) }
    }

    /// Division by a scalar.
    pub fn div_scalar(&self, s: i64) -> (r: Vec3)
        requires
            s != 0,
        ensures
            r.v() == spec_vdiv(self.v(), s as int),
    {
        Vec3 { x: fx_div(self.x, s), y: fx_div(self.y, s), z: fx_div(self.z, s) }
    }

    /// Component-wise negation.
    pub fn neg(&self) -> (r: Vec3)
        ensures
            r.v() == spec_vneg(self.v()),
    {
        Vec3 { x: fx_neg(self.x), y: fx_neg(self.y), z: fx_neg(self.z) }
    }

    /// Add another vector in place.
    pub fn add_assign(&mut self, rhs: &Vec3)
        ensures
            final (self).v() == spec_vadd(old(self).v(), rhs.v()),
    {
        self.x = fx_add(self.x, rhs.x);
        self.y = fx_add(self.y, rhs.y);
        self.z = fx_add(self.z, rhs.z);
    }

    /// Scale in place.
    pub fn mul_assign(&mut self, s: i64)
        ensures
            final (self).v() == spec_vscale(old(self).v(), s as int),
    {
        self.x = fx_mul(self.x, s);
        self.y = fx_mul(self.y, s);
        self.z = fx_mul(self.z, s);
    }

    /// Divide by a scalar in place.
    pub fn div_assign(&mut self, s: i64)
        requires
            s != 0,
        ensures
            final (self).v() == spec_vdiv(old(self).v(), s as int),
    {
        self.x = fx_div(self.x, s);
        self.y = fx_div(self.y, s);
        self.z = fx_div(self.z, s);
    }

    /// The unit vector in this vector's direction; a zero-length vector is
    /// returned unchanged rather than divided by zero.
    pub fn unit_vector(&self) -> (r: Vec3)
        ensures
            r.v() == spec_vunit(self.v()),
    {
        let l = self.length();
        if l == 0 {
            *self
        } else {
            self.div_scalar(l)
        }
    }

    /// Whether all components vanish.
    pub fn near_zero(&self) -> (r: bool)
        ensures
            r == spec_vnear_zero(self.v()),
    {
        (self.x == 0) && (self.y == 0) && (self.z == 0)
    }

    /// Mirror reflection about a normal.
    pub fn reflect(&self, normal: &Vec3) -> (r: Vec3)
        ensures
            r.v() == spec_vreflect(self.v(), normal.v()),
    {
        let d = self.dot(normal);
        let t = fx_add(d, d);
        self.sub(&normal.scale(t))
    }

    /// Refraction by Snell's law; `self` is expected to be a unit vector.
    pub fn refract(&self, n: &Vec3, etai_over_etat: i64) -> (r: Vec3)
        ensures
            r.v() == spec_vrefract(self.v(), n.v(), etai_over_etat as int),
    {
        let c0 = fx_neg(self.dot(n));
        let cos_theta = if c0 > FX_ONE {
            FX_ONE
        } else {
            c0
        };
        let r_out_perp = self.add(&n.scale(cos_theta)).scale(etai_over_etat);
        let k = fx_sub(FX_ONE, r_out_perp.length_squared());
        let kk = if k < 0 { fx_neg(k) } else { k };
        let r_out_para = n.scale(fx_neg(fx_sqrt(kk)));
        r_out_perp.add(&r_out_para)
    }
}

impl Vec3 {
    /// A vector with each component drawn uniformly from [min, max].
    pub fn rand_unif(rng: &mut rand::rngs::StdRng, min: i64, max: i64) -> (r: Vec3)
        requires
            -crate::fx::FX_LIM <= min <= max,
            max as int - min as int <= crate::fx::FX_LIM as int,
        ensures
            min <= r.x <= max,
            min <= r.y <= max,
            min <= r.z <= max,
    {
        let x = crate::rtweekend::random_unif(rng, min, max);
        let y = crate::rtweekend::random_unif(rng, min, max);
        let z = crate::rtweekend::random_unif(rng, min, max);
        Vec3 { x, y, z }
    }

    /// A vector inside the unit sphere, by bounded rejection sampling over the
    /// unit cube; after too many rejections the center is returned, so the
    /// result always lies strictly inside the sphere.
    pub fn rand_in_sphere_1(rng: &mut rand::rngs::StdRng) -> (r: Vec3)
        ensures
            spec_vlen2(r.v()) < FX_ONE as int,
            -FX_ONE <= r.x <= FX_ONE,
            -FX_ONE <= r.y <= FX_ONE,
            -FX_ONE <= r.z <= FX_ONE,
    {
        for i in 0..64usize {
            let vec = Self::rand_unif(rng, -FX_ONE, FX_ONE);
            if vec.length_squared() < FX_ONE {
                return vec;
            }
        }
        Vec3 { x: 0, y: 0, z: 0 }
    }

    /// A vector inside the unit sphere, on the same side as `normal`.
    pub fn rand_hemisphere(rng: &mut rand::rngs::StdRng, normal: &Vec3) -> (r: Vec3)
        ensures
            spec_vlen2(r.v()) < FX_ONE as int,
            spec_vdot(r.v(), normal.v()) >= 0,
    {
        let in_unit_sphere = Vec3::rand_in_sphere_1(rng);
        if in_unit_sphere.dot(normal) > 0 {
            proof {
                lemma_vdot_comm(in_unit_sphere.v(), normal.v());
            }
            in_unit_sphere
        } else {
            let flipped = in_unit_sphere.neg();
            proof {
                lemma_vdot_neg_right(normal.v(), in_unit_sphere.v());
                lemma_vdot_comm(in_unit_sphere.v(), normal.v());
                lemma_vdot_comm(flipped.v(), normal.v());
                lemma_vlen2_neg(in_unit_sphere.v());
            }
            flipped
        }
    }

    /// A unit vector in a uniformly random direction: the normalization of a
    /// random point of the shell between radius one half and one. Shorter
    /// draws are rejected — normalizing them would lose too much precision —
    /// so the result's length is always one to within a few parts in 65536.
    /// After too many rejections a fixed on-axis sample is used.
    pub fn random_unit_vector(rng: &mut rand::rngs::StdRng) -> (r: Vec3)
        ensures
            exists|s: V3| 16384 <= spec_vlen2(s) < FX_ONE as int && r.v() == spec_vunit(s),
            FX_ONE - 6 <= spec_vlen(r.v()) <= FX_ONE + 8,
    {
        for i in 0..64usize {
            let vec = Self::rand_unif(rng, -FX_ONE, FX_ONE);
            let l2 = vec.length_squared();
            if 16384 <= l2 && l2 < FX_ONE {
                let r = vec.unit_vector();
                proof {
                    lemma_vlen_at_least_half(vec.v());
                    lemma_unit_vector_length(vec.v());
                    assert(16384 <= spec_vlen2(vec.v()) < FX_ONE as int && r.v() == spec_vunit(
                        vec.v(),
                    ));
                }
                return r;
            }
        }
        let fallback = Vec3 { x: crate::fx::FX_HALF, y: 0, z: 0 };
        let r = fallback.unit_vector();
        proof {
            assert(32768int * 32768 / 65536 == 16384) by (nonlinear_arith);
            assert(spec_vlen2(fallback.v()) == 16384);
            lemma_vlen_at_least_half(fallback.v());
            lemma_unit_vector_length(fallback.v());
            assert(16384 <= spec_vlen2(fallback.v()) < FX_ONE as int && r.v() == spec_vunit(
                fallback.v(),
            ));
        }
        r
    }

    /// A vector in the unit disk of the xy-plane, by bounded rejection
    /// sampling; after too many rejections the center is returned.
    pub fn random_in_disk_1(rng: &mut rand::rngs::StdRng) -> (r: Vec3)
        ensures
            spec_vlen2(r.v()) < FX_ONE as int,
            r.z == 0,
            -FX_ONE <= r.x <= FX_ONE,
            -FX_ONE <= r.y <= FX_ONE,
    {
        for i in 0..64usize {
            let x = crate::rtweekend::random_unif(rng, -FX_ONE, FX_ONE);
            let y = crate::rtweekend::random_unif(rng, -FX_ONE, FX_ONE);
            let vec = Vec3 { x, y, z: 0 };
            if vec.length_squared() < FX_ONE {
                return vec;
            }
        }
        Vec3 { x: 0, y: 0, z: 0 }
    }
}

/// A vector whose truncated squared length is at least one quarter has
/// length at least one half.
proof fn lemma_vlen_at_least_half(a: V3)
    requires
        spec_vlen2(a) >= 16384,
    ensures
        spec_vlen(a) >= 32768,
{
    crate::fx::lemma_sqrt_floor_exists(65536 * spec_vlen2(a));
    let l = spec_vlen(a);
    assert(l >= 32768) by (nonlinear_arith)
        requires
            (l + 1) * (l + 1) > 65536 * spec_vlen2(a),
            spec_vlen2(a) >= 16384,
            l >= 0,
    ;
}

/// Negating a vector preserves its squared length.
pub proof fn lemma_vlen2_neg(a: V3)
    requires
        spec_vin_range(a),
    ensures
        spec_vlen2(spec_vneg(a)) == spec_vlen2(a),
{
    crate::fx::lemma_fx_mul_neg_right(spec_fx_neg(a.x), a.x);
    crate::fx::lemma_fx_mul_neg_right(spec_fx_neg(a.y), a.y);
    crate::fx::lemma_fx_mul_neg_right(spec_fx_neg(a.z), a.z);
    crate::fx::lemma_fx_mul_comm(spec_fx_neg(a.x), a.x);
    crate::fx::lemma_fx_mul_comm(spec_fx_neg(a.y), a.y);
    crate::fx::lemma_fx_mul_comm(spec_fx_neg(a.z), a.z);
    crate::fx::lemma_fx_mul_neg_right(a.x, a.x);
    crate::fx::lemma_fx_mul_neg_right(a.y, a.y);
    crate::fx::lemma_fx_mul_neg_right(a.z, a.z);
}

/// Components small enough that squares and their sums stay far from the
/// clipping bound.
pub open spec fn spec_v_moderate(a: V3) -> bool {
    &&& -0x4000_0000 <= a.x <= 0x4000_0000
    &&& -0x4000_0000 <= a.y <= 0x4000_0000
    &&& -0x4000_0000 <= a.z <= 0x4000_0000
}

/// One squared component, truncated: within one unit of the exact square
/// scaled down, and never clipped for moderately sized components.
proof fn lemma_sq_term(c: int)
    requires
        -0x8000_0000 <= c <= 0x8000_0000,
    ensures
        0 <= spec_fx_mul(c, c) <= 0x4000_0000_0000,
        65536 * spec_fx_mul(c, c) <= c * c,
        c * c < 65536 * spec_fx_mul(c, c) + 65536,
{
    assert(0 <= c * c <= 0x4000_0000_0000_0000) by (nonlinear_arith)
        requires
            -0x8000_0000 <= c <= 0x8000_0000,
    ;
    let q = (c * c) / 65536;
    vstd::arithmetic::div_mod::lemma_fundamental_div_mod(c * c, 65536);
    assert(0 <= (c * c) % 65536 < 65536);
    assert(0 <= q <= 0x4000_0000_0000);
}

/// One component divided by a positive length, truncated: its square, times
/// the squared length, brackets the exact scaled square.
proof fn lemma_unit_term(c: int, len: int)
    requires
        -0x4000_0000 <= c <= 0x4000_0000,
        32768 <= len,
    ensures
        -0x8000_0000 <= spec_fx_div(c, len) <= 0x8000_0000,
        spec_fx_div(c, len) * spec_fx_div(c, len) * (len * len) <= (65536 * 65536) * (c * c),
        (65536 * 65536) * (c * c) < (spec_fx_div(c, len) * spec_fx_div(c, len) + 2
            * vstd::math::abs(spec_fx_div(c, len)) + 1) * (len * len),
{
    let m = if c >= 0 {
        c * 65536
    } else {
        (-c) * 65536
    };
    assert(0 <= m <= 0x4000_0000 * 65536) by (nonlinear_arith)
        requires
            -0x4000_0000 <= c <= 0x4000_0000,
            m == if c >= 0 {
                c * 65536
            } else {
                (-c) * 65536
            },
    ;
    let q = m / len;
    vstd::arithmetic::div_mod::lemma_fundamental_div_mod(m, len);
    assert(0 <= m % len < len);
    assert(q * len <= m && m < (q + 1) * len && 0 <= q) by (nonlinear_arith)
        requires
            m == len * q + m % len,
            0 <= m % len,
            m % len < len,
            0 <= m,
            32768 <= len,
    ;
    assert(q <= 0x8000_0000) by (nonlinear_arith)
        requires
            q * len <= m,
            m <= 0x4000_0000 * 65536,
            32768 <= len,
            0 <= q,
    ;
    let u = spec_fx_div(c, len);
    assert(u == if c >= 0 {
        q
    } else {
        -q
    });
    assert(u * u == q * q) by (nonlinear_arith)
        requires
            u == q || u == -q,
    ;
    assert(vstd::math::abs(u) == q);
    assert((65536 * 65536) * (c * c) == m * m) by (nonlinear_arith)
        requires
            m == if c >= 0 {
                c * 65536
            } else {
                (-c) * 65536
            },
    ;
    assert(q * q * (len * len) <= m * m) by (nonlinear_arith)
        requires
            0 <= q * len <= m,
    ;
    assert(m * m < (q * q + 2 * q + 1) * (len * len)) by (nonlinear_arith)
        requires
            0 <= m,
            m < (q + 1) * len,
            0 < len,
    ;
}

/// Normalizing a moderate vector of length at least one half yields a
/// vector whose length is one to within a few parts in 65536: truncation in
/// the squares, the square root and the division cannot push it further.
pub proof fn lemma_unit_vector_length(a: V3)
    requires
        spec_v_moderate(a),
        spec_vlen(a) >= FX_HALF as int,
    ensures
        FX_ONE as int - 6 <= spec_vlen(spec_vunit(a)) <= FX_ONE as int + 8,
{
    lemma_sq_term(a.x);
    lemma_sq_term(a.y);
    lemma_sq_term(a.z);
    let len2 = spec_vlen2(a);
    let s = a.x * a.x + a.y * a.y + a.z * a.z;
    assert(len2 == spec_fx_mul(a.x, a.x) + spec_fx_mul(a.y, a.y) + spec_fx_mul(a.z, a.z));
    assert(65536 * len2 <= s < 65536 * len2 + 3 * 65536);
    lemma_vlen2_nonneg(a);
    crate::fx::lemma_sqrt_floor_exists(65536 * len2);
    let len = spec_vlen(a);
    assert(len * len <= 65536 * len2 < (len + 1) * (len + 1));
    assert(len * len <= s);
    assert(s < (len + 1) * (len + 1) + 3 * 65536);
    assert(spec_vunit(a) == spec_vdiv(a, len));

    lemma_unit_term(a.x, len);
    lemma_unit_term(a.y, len);
    lemma_unit_term(a.z, len);
    let ux = spec_fx_div(a.x, len);
    let uy = spec_fx_div(a.y, len);
    let uz = spec_fx_div(a.z, len);
    let t = ux * ux + uy * uy + uz * uz;

    // upper bound on the exact squared sum of the quotient components
    assert(t * (len * len) <= (65536 * 65536) * s) by (nonlinear_arith)
        requires
            ux * ux * (len * len) <= (65536 * 65536) * (a.x * a.x),
            uy * uy * (len * len) <= (65536 * 65536) * (a.y * a.y),
            uz * uz * (len * len) <= (65536 * 65536) * (a.z * a.z),
            t == ux * ux + uy * uy + uz * uz,
            s == a.x * a.x + a.y * a.y + a.z * a.z,
    ;
    assert((65536 * 65536) * s < (65536 * 65536 + 18 * 65536) * (len * len)) by (nonlinear_arith)
        requires
            s < (len + 1) * (len + 1) + 3 * 65536,
            32768 <= len,
    ;
    assert(t <= 65536 * 65536 + 18 * 65536) by (nonlinear_arith)
        requires
            t * (len * len) <= (65536 * 65536) * s,
            (65536 * 65536) * s < (65536 * 65536 + 18 * 65536) * (len * len),
            32768 <= len,
    ;

    // hence each quotient component is of magnitude at most a little over one
    assert(vstd::math::abs(ux) <= 65545) by (nonlinear_arith)
        requires
            t == ux * ux + uy * uy + uz * uz,
            t <= 65536 * 65536 + 18 * 65536,
            vstd::math::abs(ux) == if ux >= 0 {
                ux
            } else {
                -ux
            },
    ;
    assert(vstd::math::abs(uy) <= 65545) by (nonlinear_arith)
        requires
            t == ux * ux + uy * uy + uz * uz,
            t <= 65536 * 65536 + 18 * 65536,
            vstd::math::abs(uy) == if uy >= 0 {
                uy
            } else {
                -uy
            },
    ;
    assert(vstd::math::abs(uz) <= 65545) by (nonlinear_arith)
        requires
            t == ux * ux + uy * uy + uz * uz,
            t <= 65536 * 65536 + 18 * 65536,
            vstd::math::abs(uz) == if uz >= 0 {
                uz
            } else {
                -uz
            },
    ;

    // per-component lower bounds with a uniform slack
    assert((65536 * 65536) * (a.x * a.x) < (ux * ux + 131091) * (len * len)) by (nonlinear_arith)
        requires
            (65536 * 65536) * (a.x * a.x) < (ux * ux + 2 * vstd::math::abs(ux) + 1) * (len * len),
            vstd::math::abs(ux) <= 65545,
            32768 <= len,
    ;
    assert((65536 * 65536) * (a.y * a.y) < (uy * uy + 131091) * (len * len)) by (nonlinear_arith)
        requires
            (65536 * 65536) * (a.y * a.y) < (uy * uy + 2 * vstd::math::abs(uy) + 1) * (len * len),
            vstd::math::abs(uy) <= 65545,
            32768 <= len,
    ;
    assert((65536 * 65536) * (a.z * a.z) < (uz * uz + 131091) * (len * len)) by (nonlinear_arith)
        requires
            (65536 * 65536) * (a.z * a.z) < (uz * uz + 2 * vstd::math::abs(uz) + 1) * (len * len),
            vstd::math::abs(uz) <= 65545,
            32768 <= len,
    ;
    assert((65536 * 65536) * s < (t + 393273) * (len * len)) by (nonlinear_arith)
        requires
            (65536 * 65536) * (a.x * a.x) < (ux * ux + 131091) * (len * len),
            (65536 * 65536) * (a.y * a.y) < (uy * uy + 131091) * (len * len),
            (65536 * 65536) * (a.z * a.z) < (uz * uz + 131091) * (len * len),
            t == ux * ux + uy * uy + uz * uz,
            s == a.x * a.x + a.y * a.y + a.z * a.z,
    ;
    assert(t > 65536 * 65536 - 7 * 65536) by (nonlinear_arith)
        requires
            (65536 * 65536) * s < (t + 393273) * (len * len),
            len * len <= s,
            32768 <= len,
    ;

    // squared length of the unit vector, truncated per component
    lemma_sq_term(ux);
    lemma_sq_term(uy);
    lemma_sq_term(uz);
    let len2u = spec_vlen2(spec_vunit(a));
    assert(len2u == spec_fx_mul(ux, ux) + spec_fx_mul(uy, uy) + spec_fx_mul(uz, uz));
    assert(65536 * len2u <= t < 65536 * len2u + 3 * 65536);
    assert(65536 - 9 <= len2u <= 65536 + 18) by (nonlinear_arith)
        requires
            65536 * len2u <= t,
            t < 65536 * len2u + 3 * 65536,
            t <= 65536 * 65536 + 18 * 65536,
            t > 65536 * 65536 - 7 * 65536,
    ;

    lemma_vlen2_nonneg(spec_vunit(a));
    crate::fx::lemma_sqrt_floor_exists(65536 * len2u);
    let lu = spec_vlen(spec_vunit(a));
    assert(lu * lu <= 65536 * len2u < (lu + 1) * (lu + 1));
    assert(lu >= 0);
    assert(65536 - 6 <= lu) by (nonlinear_arith)
        requires
            (lu + 1) * (lu + 1) > 65536 * (65536 - 9),
            lu >= 0,
    ;
    assert(lu <= 65536 + 8) by (nonlinear_arith)
        requires
            lu * lu <= 65536 * (65536 + 18),
            lu >= 0,
    ;
}

/// The squared length of any vector is nonnegative.
pub proof fn lemma_vlen2_nonneg(a: V3)
    ensures
        spec_vlen2(a) >= 0,
{
    assert(a.x * a.x >= 0 && a.y * a.y >= 0 && a.z * a.z >= 0) by (nonlinear_arith);
}

/// The dot product is symmetric.
pub proof fn lemma_vdot_comm(a: V3, b: V3)
    ensures
        spec_vdot(a, b) == spec_vdot(b, a),
{
    crate::fx::lemma_fx_mul_comm(a.x, b.x);
    crate::fx::lemma_fx_mul_comm(a.y, b.y);
    crate::fx::lemma_fx_mul_comm(a.z, b.z);
}

/// Clipping commutes with negation.
proof fn lemma_clip_neg(d: int)
    ensures
        fx_clip(-fx_clip(d)) == fx_clip(-d),
{
}

/// The cross product is antisymmetric: `a x b == -(b x a)`.
pub proof fn lemma_vcross_antisym(a: V3, b: V3)
    ensures
        spec_vcross(a, b) == spec_vneg(spec_vcross(b, a)),
{
    crate::fx::lemma_fx_mul_comm(a.y, b.z);
    crate::fx::lemma_fx_mul_comm(a.z, b.y);
    crate::fx::lemma_fx_mul_comm(a.z, b.x);
    crate::fx::lemma_fx_mul_comm(a.x, b.z);
    crate::fx::lemma_fx_mul_comm(a.x, b.y);
    crate::fx::lemma_fx_mul_comm(a.y, b.x);
    lemma_clip_neg(spec_fx_mul(b.y, a.z) - spec_fx_mul(b.z, a.y));
    lemma_clip_neg(spec_fx_mul(b.z, a.x) - spec_fx_mul(b.x, a.z));
    lemma_clip_neg(spec_fx_mul(b.x, a.y) - spec_fx_mul(b.y, a.x));
}

/// All components lie in the symmetric representable range.
pub open spec fn spec_vin_range(a: V3) -> bool {
    &&& -(crate::fx::FX_LIM as int) <= a.x <= crate::fx::FX_LIM as int
    &&& -(crate::fx::FX_LIM as int) <= a.y <= crate::fx::FX_LIM as int
    &&& -(crate::fx::FX_LIM as int) <= a.z <= crate::fx::FX_LIM as int
}

/// Negating one argument negates the dot product.
pub proof fn lemma_vdot_neg_right(a: V3, b: V3)
    requires
        spec_vin_range(b),
    ensures
        spec_vdot(a, spec_vneg(b)) == spec_fx_neg(spec_vdot(a, b)),
{
    crate::fx::lemma_fx_mul_neg_right(a.x, b.x);
    crate::fx::lemma_fx_mul_neg_right(a.y, b.y);
    crate::fx::lemma_fx_mul_neg_right(a.z, b.z);
    let m1 = spec_fx_mul(a.x, b.x);
    let m2 = spec_fx_mul(a.y, b.y);
    let m3 = spec_fx_mul(a.z, b.z);
    crate::fx::lemma_clip_odd(m1 + m2);
    crate::fx::lemma_clip_odd(fx_clip(m1 + m2) + m3);
}

} // verus!
