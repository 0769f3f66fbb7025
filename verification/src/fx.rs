//! Saturating signed fixed-point scalars with 24 fractional bits.
//!
//! A [`Fx`] stores a value `raw / 2^24` in a 64-bit mantissa.  Every
//! operation is total: results outside the mantissa range saturate, and all
//! rounding truncates toward zero.  The operations carry exact functional
//! contracts, so callers can reason about each computed bit.

use vstd::prelude::*;

verus! {

/// Raw mantissa weight of `1.0`: `2^24`.
pub const FX_ONE_RAW: i64 = 16777216;

/// A fixed-point scalar: the represented value is `raw / 2^24`.
#[derive(Clone, Copy, Debug, PartialEq, Eq, Structural)]
pub struct Fx {
    pub raw: i64,
}

/// Saturation of a mathematical integer into the `i64` mantissa range.
pub open spec fn sat64(x: int) -> int {
    if x > i64::MAX {
        i64::MAX as int
    } else if x < i64::MIN {
        i64::MIN as int
    } else {
        x
    }
}

/// Magnitude of an integer.
pub open spec fn iabs(x: int) -> int {
    if x < 0 {
        -x
    } else {
        x
    }
}

/// Division rounding toward zero (the rule used by every fixed-point
/// operation in this crate).
pub open spec fn tdiv(a: int, b: int) -> int {
    if (a < 0) == (b < 0) {
        iabs(a) / iabs(b)
    } else {
        -(iabs(a) / iabs(b))
    }
}

/// Mantissa of a fixed-point sum.
pub open spec fn fx_add_v(a: int, b: int) -> int {
    sat64(a + b)
}

/// Mantissa of a fixed-point difference.
pub open spec fn fx_sub_v(a: int, b: int) -> int {
    sat64(a - b)
}

/// Mantissa of a fixed-point negation.
pub open spec fn fx_neg_v(a: int) -> int {
    sat64(-a)
}

/// Mantissa of a fixed-point product.
pub open spec fn fx_mul_v(a: int, b: int) -> int {
    sat64(tdiv(a * b, 16777216))
}

/// Mantissa of a fixed-point quotient.
pub open spec fn fx_div_v(a: int, b: int) -> int {
    sat64(tdiv(a * 16777216, b))
}

/// Mantissa of a fixed-point value divided by a plain integer.
pub open spec fn fx_divi_v(a: int, k: int) -> int {
    tdiv(a, k)
}

/// Clamping into an interval.
pub open spec fn clamp_v(x: int, lo: int, hi: int) -> int {
    if x < lo {
        lo
    } else if x > hi {
        hi
    } else {
        x
    }
}

/// Linear interpolation `p0 + (p1 - p0) * amount` in fixed point.
pub open spec fn mix_v(p0: int, p1: int, amount: int) -> int {
    fx_add_v(p0, fx_mul_v(fx_sub_v(p1, p0), amount))
}

impl Fx {
    /// The zero value.
    pub open spec fn zero_spec() -> Fx {
        Fx { raw: 0 }
    }

    pub fn zero() -> (r: Fx)
        ensures
            r.raw == 0,
    {
        Fx { raw: 0 }
    }

    /// The value one.
    pub fn one() -> (r: Fx)
        ensures
            r.raw == 16777216,
    {
        Fx { raw: FX_ONE_RAW }
    }
}

/// Exact magnitude of an `i64`, as a `u64` (total, also for `i64::MIN`).
pub(crate) fn mag64(x: i64) -> (r: u64)
    ensures
        r as int == iabs(x as int),
{
    if x >= 0 {
        x as u64
    } else {
        let w: i128 = -(x as i128);
        w as u64
    }
}

/// Saturate a magnitude/sign pair into an `i64`.
pub(crate) fn sat_signed(mag: u128, neg: bool) -> (r: i64)
    ensures
        r as int == sat64(if neg { -(mag as int) } else { mag as int }),
{
    if neg {
        if mag >= 9223372036854775808u128 {
            i64::MIN
        } else {
            let m: i128 = mag as i128;
            (-m) as i64
        }
    } else {
        if mag > 9223372036854775807u128 {
            i64::MAX
        } else {
            mag as i64
        }
    }
}

/// Saturate an `i128` into an `i64`.
pub(crate) fn sat_i128(x: i128) -> (r: i64)
    ensures
        r as int == sat64(x as int),
{
    if x > i64::MAX as i128 {
        i64::MAX
    } else if x < i64::MIN as i128 {
        i64::MIN
    } else {
        x as i64
    }
}

/// Magnitude and sign of a product: `|a * b| == |a| * |b|`, and the product
/// is negative exactly when the signs differ and neither factor is zero.
pub proof fn lemma_mag_mul(a: int, b: int)
    ensures
        iabs(a * b) == iabs(a) * iabs(b),
        (a * b < 0) <==> (((a < 0) != (b < 0)) && a != 0 && b != 0),
        (a * b == 0) <==> (a == 0 || b == 0),
{
    if a == 0 || b == 0 {
        assert(a * b == 0) by (nonlinear_arith)
            requires
                a == 0 || b == 0,
        ;
        assert(iabs(a) * iabs(b) == 0) by (nonlinear_arith)
            requires
                iabs(a) == 0 || iabs(b) == 0,
        ;
    } else if a > 0 && b > 0 {
        assert(a * b > 0 && iabs(a * b) == iabs(a) * iabs(b)) by (nonlinear_arith)
            requires
                a > 0 && b > 0 && iabs(a * b) == if a * b < 0 { -(a * b) } else { a * b }
                    && iabs(a) == a && iabs(b) == b,
        ;
    } else if a < 0 && b < 0 {
        assert(a * b > 0 && a * b == (-a) * (-b)) by (nonlinear_arith)
            requires
                a < 0 && b < 0,
        ;
    } else if a < 0 && b > 0 {
        assert(a * b < 0 && -(a * b) == (-a) * b) by (nonlinear_arith)
            requires
                a < 0 && b > 0,
        ;
    } else {
        assert(a * b < 0 && -(a * b) == a * (-b)) by (nonlinear_arith)
            requires
                a > 0 && b < 0,
        ;
    }
}

/// Fixed-point addition, saturating.
pub fn fx_add(a: Fx, b: Fx) -> (r: Fx)
    ensures
        r.raw as int == fx_add_v(a.raw as int, b.raw as int),
{
    let s: i128 = a.raw as i128 + b.raw as i128;
    Fx { raw: sat_i128(s) }
}

/// Fixed-point subtraction, saturating.
pub fn fx_sub(a: Fx, b: Fx) -> (r: Fx)
    ensures
        r.raw as int == fx_sub_v(a.raw as int, b.raw as int),
{
    let s: i128 = a.raw as i128 - b.raw as i128;
    Fx { raw: sat_i128(s) }
}

/// Fixed-point negation, saturating.
pub fn fx_neg(a: Fx) -> (r: Fx)
    ensures
        r.raw as int == fx_neg_v(a.raw as int),
{
    let s: i128 = -(a.raw as i128);
    Fx { raw: sat_i128(s) }
}

/// Fixed-point multiplication: `(a * b) / 2^24`, truncated toward zero,
/// saturating.
pub fn fx_mul(a: Fx, b: Fx) -> (r: Fx)
    ensures
        r.raw as int == fx_mul_v(a.raw as int, b.raw as int),
{
    let ma: u64 = mag64(a.raw);
    let mb: u64 = mag64(b.raw);
    proof {
        assert((ma as int) * (mb as int) <= 0xffff_ffff_ffff_ffff * 0xffff_ffff_ffff_ffff)
            by (nonlinear_arith)
            requires
                0 <= ma as int <= 0xffff_ffff_ffff_ffff,
                0 <= mb as int <= 0xffff_ffff_ffff_ffff,
        ;
    }
    let prod: u128 = (ma as u128) * (mb as u128);
    let q: u128 = prod / 16777216u128;
    let neg: bool = (a.raw < 0) != (b.raw < 0);
    proof {
        lemma_mag_mul(a.raw as int, b.raw as int);
    }
    Fx { raw: sat_signed(q, neg) }
}

/// Fixed-point division: `(a * 2^24) / b`, truncated toward zero,
/// saturating.  The divisor must not be zero.
pub fn fx_div(a: Fx, b: Fx) -> (r: Fx)
    requires
        b.raw != 0,
    ensures
        r.raw as int == fx_div_v(a.raw as int, b.raw as int),
{
    let ma: u128 = (mag64(a.raw) as u128) * 16777216u128;
    let mb: u128 = mag64(b.raw) as u128;
    let q: u128 = ma / mb;
    let neg: bool = (a.raw < 0) != (b.raw < 0);
    proof {
        lemma_mag_mul(a.raw as int, 16777216);
        assert(iabs(a.raw as int * 16777216) == iabs(a.raw as int) * 16777216);
    }
    Fx { raw: sat_signed(q, neg) }
}

/// Fixed-point value divided by a plain positive integer, truncated toward
/// zero.
pub fn fx_divi(a: Fx, k: i64) -> (r: Fx)
    requires
        k > 0,
    ensures
        r.raw as int == fx_divi_v(a.raw as int, k as int),
{
    let ma: u64 = mag64(a.raw);
    let q: u64 = ma / (k as u64);
    let neg: bool = a.raw < 0;
    proof {
        assert(iabs(a.raw as int) / iabs(k as int) <= iabs(a.raw as int)) by (nonlinear_arith)
            requires
                k as int >= 1,
                iabs(a.raw as int) >= 0,
                iabs(k as int) == k as int,
        ;
    }
    Fx { raw: sat_signed(q as u128, neg) }
}

/// Clamp a fixed-point value into `[lo, hi]`.
pub fn fx_clamp(x: Fx, lo: Fx, hi: Fx) -> (r: Fx)
    requires
        lo.raw <= hi.raw,
    ensures
        r.raw as int == clamp_v(x.raw as int, lo.raw as int, hi.raw as int),
{
    if x.raw < lo.raw {
        lo
    } else if x.raw > hi.raw {
        hi
    } else {
        x
    }
}

/// Linear interpolation `p0 + (p1 - p0) * amount` in fixed point.
pub fn mix(p0: Fx, p1: Fx, amount: Fx) -> (r: Fx)
    ensures
        r.raw as int == mix_v(p0.raw as int, p1.raw as int, amount.raw as int),
{
    fx_add(p0, fx_mul(fx_sub(p1, p0), amount))
}

} // verus!
