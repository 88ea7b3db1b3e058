//! Conversion from linear radiance to display bytes.
//!
//! Channels are clamped into the unit interval, gamma-corrected by a square
//! root, scaled by 255.999 and truncated — each step an exact integer
//! operation the contracts state.

use vstd::prelude::*;

use crate::fx::{
    clamp, fx_div, fx_sqrt, spec_clamp, spec_fx_div, spec_fx_sqrt, FX_ONE,
};
use crate::vec3::Vec3;

verus! {

/// An 8-bit display color.
#[derive(Clone, Copy, Debug, PartialEq, Eq, Structural)]
pub struct Rgb8 {
    pub r: u8,
    pub g: u8,
    pub b: u8,
}

/// A radiance channel as a display byte: clamp into [0, 1], take the square
/// root (gamma 2.0), scale by 255.999 and truncate.
pub open spec fn spec_gamma_byte(c: int) -> int {
    (255999 * spec_fx_sqrt(spec_clamp(c, 0, FX_ONE as int))) / 65536000
}

/// A radiance channel as a display byte without gamma correction.
pub open spec fn spec_plain_byte(c: int) -> int {
    (255999 * spec_clamp(c, 0, FX_ONE as int)) / 65536000
}

/// A color as its gamma-corrected display bytes.
pub open spec fn spec_to_rgb(c: crate::vec3::V3) -> Rgb8 {
    Rgb8 {
        r: spec_gamma_byte(c.x) as u8,
        g: spec_gamma_byte(c.y) as u8,
        b: spec_gamma_byte(c.z) as u8,
    }
}

/// Every gamma-corrected channel is a byte.
pub proof fn lemma_gamma_byte_range(c: int)
    ensures
        0 <= spec_gamma_byte(c) <= 255,
{
    let cl = spec_clamp(c, 0, FX_ONE as int);
    crate::fx::lemma_sqrt_floor_exists(65536 * cl);
    let s = crate::fx::sqrt_floor(65536 * cl);
    assert(s <= 65536) by (nonlinear_arith)
        requires
            s * s <= 65536 * cl,
            cl <= 65536,
            s >= 0,
    ;
    assert((255999 * s) / 65536000 <= 255 && 0 <= (255999 * s) / 65536000) by (nonlinear_arith)
        requires
            0 <= s <= 65536,
    ;
}

/// Every plain-scaled channel is a byte.
pub proof fn lemma_plain_byte_range(c: int)
    ensures
        0 <= spec_plain_byte(c) <= 255,
{
    let cl = spec_clamp(c, 0, FX_ONE as int);
    assert((255999 * cl) / 65536000 <= 255 && 0 <= (255999 * cl) / 65536000) by (nonlinear_arith)
        requires
            0 <= cl <= 65536,
    ;
}

/// The square root of a unit-interval scalar stays in the unit interval.
proof fn lemma_sqrt_unit(c: int)
    requires
        0 <= c <= FX_ONE as int,
    ensures
        0 <= spec_fx_sqrt(c) <= FX_ONE as int,
{
    crate::fx::lemma_sqrt_floor_exists(65536 * c);
    let s = crate::fx::sqrt_floor(65536 * c);
    assert(s <= 65536) by (nonlinear_arith)
        requires
            s * s <= 65536 * c,
            c <= 65536,
            s >= 0,
    ;
}

/// Gamma-correct one channel and truncate it to a byte.
fn gamma_byte(c: i64) -> (b: u8)
    ensures
        b as int == spec_gamma_byte(c as int),
{
    let cl = clamp(c, 0, FX_ONE);
    proof {
        lemma_sqrt_unit(cl as int);
    }
    let s = fx_sqrt(cl);
    let n: u64 = 255999u64 * (s as u64);
    let q: u64 = n / 65536000;
    proof {
        assert(q <= 255) by (nonlinear_arith)
            requires
                q == n / 65536000,
                n <= 255999u64 * 65536,
        ;
    }
    q as u8
}

/// Truncate one channel to a byte without gamma correction.
fn plain_byte(c: i64) -> (b: u8)
    ensures
        b as int == spec_plain_byte(c as int),
{
    let cl = clamp(c, 0, FX_ONE);
    let n: u64 = 255999u64 * (cl as u64);
    let q: u64 = n / 65536000;
    proof {
        assert(q <= 255) by (nonlinear_arith)
            requires
                q == n / 65536000,
                n <= 255999u64 * 65536,
        ;
    }
    q as u8
}

impl Vec3 {
    /// This color as a gamma-corrected display color.
    pub fn to_rgb(self) -> (c: Rgb8)
        ensures
            c.r as int == spec_gamma_byte(self.x as int),
            c.g as int == spec_gamma_byte(self.y as int),
            c.b as int == spec_gamma_byte(self.z as int),
            c == spec_to_rgb(self.v()),
    {
        proof {
            lemma_gamma_byte_range(self.x as int);
            lemma_gamma_byte_range(self.y as int);
            lemma_gamma_byte_range(self.z as int);
        }
        Rgb8 { r: gamma_byte(self.x), g: gamma_byte(self.y), b: gamma_byte(self.z) }
    }

    /// An accumulated color as a display color: the arithmetic mean over the
    /// samples, gamma-corrected.
    pub fn to_rgb_sampled(self, samples_per_pixel: i32) -> (c: Rgb8)
        requires
            samples_per_pixel > 0,
        ensures
            c.r as int == spec_gamma_byte(
                spec_fx_div(self.x as int, samples_per_pixel as int * 65536),
            ),
            c.g as int == spec_gamma_byte(
                spec_fx_div(self.y as int, samples_per_pixel as int * 65536),
            ),
            c.b as int == spec_gamma_byte(
                spec_fx_div(self.z as int, samples_per_pixel as int * 65536),
            ),
    {
        let n: i64 = (samples_per_pixel as i64) * 65536;
        Rgb8 {
            r: gamma_byte(fx_div(self.x, n)),
            g: gamma_byte(fx_div(self.y, n)),
            b: gamma_byte(fx_div(self.z, n)),
        }
    }
}

/// Channels to a display color without gamma correction.
pub fn color_no_gamma(r: i64, g: i64, b: i64) -> (c: Rgb8)
    ensures
        c.r as int == spec_plain_byte(r as int),
        c.g as int == spec_plain_byte(g as int),
        c.b as int == spec_plain_byte(b as int),
{
    Rgb8 { r: plain_byte(r), g: plain_byte(g), b: plain_byte(b) }
}

} // verus!
