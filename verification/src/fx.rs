//! Fixed-point scalars: signed 64-bit values with 16 fractional bits.
//!
//! A scalar `a: i64` stands for the real number `a / 65536`. Multiplication
//! and division rescale their exact integer result by truncating toward zero,
//! and every operation clips its result into the symmetric range
//! `[-FX_LIM, FX_LIM]`, so all operations are total and no intermediate step
//! can overflow. The spec functions below give each operation its exact
//! integer meaning; the executable functions are proved to compute it.

use vstd::prelude::*;

verus! {

/// The scalar representing one: 2^16.
pub const FX_ONE: i64 = 65536;

/// The scalar representing one half.
pub const FX_HALF: i64 = 32768;

/// Largest representable magnitude; results are clipped into [-FX_LIM, FX_LIM].
pub const FX_LIM: i64 = 0x7fff_ffff_ffff_ffff;

/// Clip an unbounded integer into the symmetric representable range.
pub open spec fn fx_clip(n: int) -> int {
    if n > FX_LIM as int {
        FX_LIM as int
    } else if n < -(FX_LIM as int) {
        -(FX_LIM as int)
    } else {
        n
    }
}

/// Division truncating toward zero, for a positive divisor.
pub open spec fn trunc_div(n: int, d: int) -> int
    recommends
        d > 0,
{
    if n >= 0 {
        n / d
    } else {
        -((-n) / d)
    }
}

/// Drop the extra 16 fractional bits of an exact product, truncating toward zero.
pub open spec fn fx_scale_down(n: int) -> int {
    trunc_div(n, 65536)
}

/// Exact meaning of fixed-point addition.
pub open spec fn spec_fx_add(a: int, b: int) -> int {
    fx_clip(a + b)
}

/// Exact meaning of fixed-point subtraction.
pub open spec fn spec_fx_sub(a: int, b: int) -> int {
    fx_clip(a - b)
}

/// Exact meaning of fixed-point negation.
pub open spec fn spec_fx_neg(a: int) -> int {
    fx_clip(-a)
}

/// Exact meaning of fixed-point multiplication.
pub open spec fn spec_fx_mul(a: int, b: int) -> int {
    fx_clip(fx_scale_down(a * b))
}

/// Exact meaning of fixed-point division (truncating toward zero).
pub open spec fn spec_fx_div(a: int, b: int) -> int
    recommends
        b != 0,
{
    if b > 0 {
        fx_clip(trunc_div(a * 65536, b))
    } else {
        fx_clip(trunc_div(-(a * 65536), -b))
    }
}

/// `r` is the integer square root (rounded down) of `n`.
pub open spec fn is_sqrt_floor(n: int, r: int) -> bool {
    r >= 0 && r * r <= n && n < (r + 1) * (r + 1)
}

/// The integer square root of `n`, rounded down.
pub open spec fn sqrt_floor(n: int) -> int
    recommends
        n >= 0,
{
    choose|r: int| is_sqrt_floor(n, r)
}

/// Exact meaning of the fixed-point square root of a nonnegative scalar.
pub open spec fn spec_fx_sqrt(a: int) -> int
    recommends
        a >= 0,
{
    sqrt_floor(65536 * a)
}

/// A floor square root exists for every nonnegative integer, so `sqrt_floor`
/// denotes a value that satisfies its characterization.
pub proof fn lemma_sqrt_floor_exists(n: int)
    requires
        n >= 0,
    ensures
        is_sqrt_floor(n, sqrt_floor(n)),
    decreases n,
{
    if n == 0 {
        assert(is_sqrt_floor(0, 0)) by (nonlinear_arith);
        assert(exists|r: int| is_sqrt_floor(0, r));
    } else {
        lemma_sqrt_floor_exists(n - 1);
        let p = sqrt_floor(n - 1);
        if n < (p + 1) * (p + 1) {
            assert(is_sqrt_floor(n, p));
        } else {
            assert(n == (p + 1) * (p + 1));
            assert((p + 1) * (p + 1) < (p + 2) * (p + 2)) by (nonlinear_arith)
                requires
                    p >= 0,
            ;
            assert(is_sqrt_floor(n, p + 1));
        }
        assert(exists|r: int| is_sqrt_floor(n, r));
    }
}

/// The floor square root is unique.
pub proof fn lemma_sqrt_floor_unique(n: int, r: int)
    requires
        is_sqrt_floor(n, r),
    ensures
        r == sqrt_floor(n),
{
    assert(n >= 0) by (nonlinear_arith)
        requires
            is_sqrt_floor(n, r),
    ;
    lemma_sqrt_floor_exists(n);
    let s = sqrt_floor(n);
    assert(r == s) by (nonlinear_arith)
        requires
            is_sqrt_floor(n, r) && is_sqrt_floor(n, s),
    ;
}

/// Clip an exact 128-bit intermediate result into a 64-bit scalar.
pub(crate) fn clip128(n: i128) -> (r: i64)
    ensures
        r as int == fx_clip(n as int),
{
    if n > FX_LIM as i128 {
        FX_LIM
    } else if n < -(FX_LIM as i128) {
        -FX_LIM
    } else {
        n as i64
    }
}

/// Truncating division of a 128-bit intermediate by a positive divisor.
pub(crate) fn trunc_div128(n: i128, d: u128) -> (r: i128)
    requires
        n > i128::MIN,
        0 < d,
        d <= u64::MAX,
    ensures
        r as int == trunc_div(n as int, d as int),
{
    if n >= 0 {
        let q: u128 = (n as u128) / d;
        q as i128
    } else {
        let m: u128 = (-n) as u128;
        let q: u128 = m / d;
        -(q as i128)
    }
}

/// Fixed-point addition.
pub fn fx_add(a: i64, b: i64) -> (r: i64)
    ensures
        r as int == spec_fx_add(a as int, b as int),
{
    clip128(a as i128 + b as i128)
}

/// Fixed-point subtraction.
pub fn fx_sub(a: i64, b: i64) -> (r: i64)
    ensures
        r as int == spec_fx_sub(a as int, b as int),
{
    clip128(a as i128 - b as i128)
}

/// Fixed-point negation.
pub fn fx_neg(a: i64) -> (r: i64)
    ensures
        r as int == spec_fx_neg(a as int),
{
    clip128(-(a as i128))
}

/// Fixed-point multiplication.
pub fn fx_mul(a: i64, b: i64) -> (r: i64)
    ensures
        r as int == spec_fx_mul(a as int, b as int),
{
    proof {
        assert(i128::MIN < (a as int) * (b as int) < i128::MAX) by (nonlinear_arith)
            requires
                i64::MIN <= a <= i64::MAX,
                i64::MIN <= b <= i64::MAX,
        ;
    }
    let p: i128 = (a as i128) * (b as i128);
    clip128(trunc_div128(p, 65536))
}

/// Fixed-point division, truncating toward zero.
pub fn fx_div(a: i64, b: i64) -> (r: i64)
    requires
        b != 0,
    ensures
        r as int == spec_fx_div(a as int, b as int),
{
    let n: i128 = (a as i128) * 65536;
    if b > 0 {
        clip128(trunc_div128(n, b as u128))
    } else {
        let d: i128 = -(b as i128);
        clip128(trunc_div128(-n, d as u128))
    }
}

/// Integer square root of a 128-bit value, by bisection.
pub(crate) fn isqrt_u128(n: u128) -> (r: u64)
    ensures
        is_sqrt_floor(n as int, r as int),
{
    let mut lo: u128 = 0;
    let mut hi: u128 = 0x1_0000_0000_0000_0000;
    proof {
        assert((0x1_0000_0000_0000_0000u128 as int) * (0x1_0000_0000_0000_0000u128 as int)
            > u128::MAX as int) by (nonlinear_arith);
    }
    while lo + 1 < hi
        invariant
            lo < hi,
            hi <= 0x1_0000_0000_0000_0000,
            (lo as int) * (lo as int) <= n as int,
            (n as int) < (hi as int) * (hi as int),
        decreases hi - lo,
    {
        let mid: u128 = lo + (hi - lo) / 2;
        assert(lo < mid < hi);
        assert((mid as int) * (mid as int) < u128::MAX as int) by (nonlinear_arith)
            requires
                mid < 0x1_0000_0000_0000_0000u128,
        ;
        if mid * mid <= n {
            lo = mid;
        } else {
            hi = mid;
        }
    }
    assert(hi == lo + 1);
    assert(lo < 0x1_0000_0000_0000_0000);
    lo as u64
}

/// Fixed-point square root of a nonnegative scalar.
pub fn fx_sqrt(a: i64) -> (r: i64)
    requires
        a >= 0,
    ensures
        r as int == spec_fx_sqrt(a as int),
        r >= 0,
{
    let n: u128 = (a as u128) * 65536;
    let s: u64 = isqrt_u128(n);
    proof {
        lemma_sqrt_floor_unique(n as int, s as int);
        assert((s as int) * (s as int) <= n as int);
        assert(n as int <= (0x8000_0000_0000_0000u128 as int) * 65536);
        assert(s as int <= 0x8000_0000_0000i64 as int) by (nonlinear_arith)
            requires
                (s as int) * (s as int) <= (0x8000_0000_0000_0000u128 as int) * 65536,
                s >= 0,
        ;
    }
    s as i64
}

/// Clamp a scalar into [min, max].
pub open spec fn spec_clamp(x: int, min: int, max: int) -> int {
    if x < min {
        min
    } else if x > max {
        max
    } else {
        x
    }
}

/// Clamp a scalar into [min, max].
pub fn clamp(x: i64, min: i64, max: i64) -> (r: i64)
    ensures
        r as int == spec_clamp(x as int, min as int, max as int),
{
    if x < min {
        min
    } else if x > max {
        max
    } else {
        x
    }
}

/// Products of unit-interval scalars stay in the unit interval, and cannot
/// exceed either factor.
pub proof fn lemma_fx_mul_unit(a: int, b: int)
    requires
        0 <= a <= FX_ONE as int,
        0 <= b <= FX_ONE as int,
    ensures
        0 <= spec_fx_mul(a, b) <= FX_ONE as int,
        spec_fx_mul(a, b) <= a,
        spec_fx_mul(a, b) <= b,
{
    assert(0 <= a * b && a * b <= a * 65536 && a * b <= b * 65536) by (nonlinear_arith)
        requires
            0 <= a <= 65536,
            0 <= b <= 65536,
    ;
    assert((a * b) / 65536 <= (a * 65536) / 65536) by (nonlinear_arith)
        requires
            0 <= a * b <= a * 65536,
    ;
    assert((a * b) / 65536 <= (b * 65536) / 65536) by (nonlinear_arith)
        requires
            0 <= a * b <= b * 65536,
    ;
    assert((a * 65536) / 65536 == a) by (nonlinear_arith);
    assert((b * 65536) / 65536 == b) by (nonlinear_arith);
}

/// The square of a scalar of magnitude at most one stays in the unit interval.
pub proof fn lemma_fx_square_unit(c: int)
    requires
        -(FX_ONE as int) <= c <= FX_ONE as int,
    ensures
        0 <= spec_fx_mul(c, c) <= FX_ONE as int,
{
    assert(0 <= c * c && c * c <= 65536 * 65536) by (nonlinear_arith)
        requires
            -65536 <= c <= 65536,
    ;
    assert((c * c) / 65536 <= (65536 * 65536) / 65536) by (nonlinear_arith)
        requires
            0 <= c * c <= 65536 * 65536,
    ;
}

/// Scaling a nonnegative scalar by a unit-interval factor cannot grow it,
/// and shrinks it strictly when the factor is below one.
pub proof fn lemma_fx_mul_frac(d: int, u: int)
    requires
        0 <= d <= FX_LIM as int,
        0 <= u <= FX_ONE as int,
    ensures
        0 <= spec_fx_mul(d, u) <= d,
        1 <= d && u < FX_ONE as int ==> spec_fx_mul(d, u) < d,
{
    if 1 <= d && u < 65536 {
        assert((d * u) / 65536 < d) by (nonlinear_arith)
            requires
                1 <= d,
                0 <= u <= 65535,
        ;
    }
    assert(0 <= d * u && d * u <= d * 65536) by (nonlinear_arith)
        requires
            0 <= d,
            0 <= u <= 65536,
    ;
    assert((d * u) / 65536 <= (d * 65536) / 65536) by (nonlinear_arith)
        requires
            0 <= d * u <= d * 65536,
    ;
    assert((d * 65536) / 65536 == d) by (nonlinear_arith);
}

/// Fixed-point multiplication is commutative.
pub proof fn lemma_fx_mul_comm(a: int, b: int)
    ensures
        spec_fx_mul(a, b) == spec_fx_mul(b, a),
{
    assert(a * b == b * a) by (nonlinear_arith);
}

/// Clipping is an odd function: the bounds are symmetric.
pub proof fn lemma_clip_odd(n: int)
    ensures
        fx_clip(-n) == -fx_clip(n),
{
}

/// Truncation toward zero is an odd function.
pub proof fn lemma_scale_down_odd(n: int)
    ensures
        fx_scale_down(-n) == -fx_scale_down(n),
{
}

/// Negating one factor negates a fixed-point product.
pub proof fn lemma_fx_mul_neg_right(a: int, b: int)
    ensures
        spec_fx_mul(a, -b) == -spec_fx_mul(a, b),
{
    assert(a * (-b) == -(a * b)) by (nonlinear_arith);
    lemma_scale_down_odd(a * b);
    lemma_clip_odd(fx_scale_down(a * b));
}

} // verus!
