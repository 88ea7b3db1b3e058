//! Shared constants and the random-source boundary.
//!
//! Randomness enters the library only through an explicitly passed generator,
//! behind one trusted wrapper: a uniform draw from a half-open integer range.
//! Nothing is assumed about any single draw beyond its range.

use vstd::prelude::*;

use rand::Rng;

use crate::fx::{fx_add, fx_mul, fx_sub, FX_LIM, FX_ONE};

verus! {

/// The largest scalar, standing in for positive infinity as a ray-parameter
/// bound.
pub const INF: i64 = 0x7fff_ffff_ffff_ffff;

#[verifier::external_type_specification]
#[verifier::external_body]
pub struct ExStdRng(rand::rngs::StdRng);

/// Relies on rand::Rng::gen_range over `lo..hi`: the draw lies in the
/// half-open range, and the call panics only on an empty range, which the
/// precondition excludes.
#[verifier::external_body]
pub(crate) fn rand_range(rng: &mut rand::rngs::StdRng, lo: i64, hi: i64) -> (r: i64)
    requires
        lo < hi,
    ensures
        lo <= r < hi,
{
    rng.gen_range(lo..hi)
}

/// A uniform draw from [0, 1).
pub fn random_unif_1(rng: &mut rand::rngs::StdRng) -> (r: i64)
    ensures
        0 <= r < FX_ONE,
{
    rand_range(rng, 0, FX_ONE)
}

/// A uniform draw from [min, max], by `min + (max - min) * u` with `u` in
/// [0, 1).
pub fn random_unif(rng: &mut rand::rngs::StdRng, min: i64, max: i64) -> (r: i64)
    requires
        -FX_LIM <= min <= max,
        max as int - min as int <= FX_LIM as int,
    ensures
        min <= r <= max,
        min < max ==> r < max,
        exists|u: i64|
            0 <= u < FX_ONE && r as int == crate::fx::spec_fx_add(
                min as int,
                crate::fx::spec_fx_mul(crate::fx::spec_fx_sub(max as int, min as int), u as int),
            ),
{
    let d = fx_sub(max, min);
    let u = random_unif_1(rng);
    let m = fx_mul(d, u);
    proof {
        crate::fx::lemma_fx_mul_frac(d as int, u as int);
    }
    let r = fx_add(min, m);
    proof {
        assert(0 <= u < FX_ONE && r as int == crate::fx::spec_fx_add(
            min as int,
            crate::fx::spec_fx_mul(crate::fx::spec_fx_sub(max as int, min as int), u as int),
        ));
    }
    r
}

} // verus!
