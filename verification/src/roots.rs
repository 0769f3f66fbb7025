//! Square roots, cube roots and trigonometry on fixed-point scalars.
//!
//! `fx_sqrt` and `fx_cbrt` compute exact floor roots of the scaled mantissa
//! by binary search.  `fx_cos` evaluates a degree-16 Taylor polynomial of
//! the cosine in fixed point, and `fx_acos` inverts it by bisection over
//! `[0, pi]`.  Each function carries an exact functional contract; the
//! polynomial and the bisection are themselves the specification of the
//! crate's trigonometry (they approximate the real functions to roughly the
//! fixed-point granularity on the arguments the curve solver produces).

use vstd::prelude::*;

use crate::fx::{clamp_v, fx_divi_v, fx_mul_v, fx_sub_v, iabs, mag64, Fx};
use crate::fx::{fx_divi, fx_mul, fx_sub};

verus! {

/// Mantissa of `pi`, truncated: `floor(pi * 2^24)`.
pub const FX_PI_RAW: i64 = 52707178;

/// `r` is the floor of the square root of `n`.
pub open spec fn is_sqrt_floor(n: int, r: int) -> bool {
    0 <= r && r * r <= n && n < (r + 1) * (r + 1)
}

/// The floor of the square root of `n` (for `n >= 0`).
pub open spec fn sqrt_floor(n: int) -> int {
    choose|r: int| is_sqrt_floor(n, r)
}

/// `r` is the floor of the cube root of `n`.
pub open spec fn is_cbrt_floor(n: int, r: int) -> bool {
    0 <= r && r * r * r <= n && n < (r + 1) * (r + 1) * (r + 1)
}

/// The floor of the cube root of `n` (for `n >= 0`).
pub open spec fn cbrt_floor(n: int) -> int {
    choose|r: int| is_cbrt_floor(n, r)
}

/// Mantissa of the fixed-point square root: the root of `a / 2^24` has
/// mantissa `floor(sqrt(a * 2^24))`.  A negative argument maps to zero.
pub open spec fn fx_sqrt_v(a: int) -> int {
    if a >= 0 {
        sqrt_floor(a * 16777216)
    } else {
        0
    }
}

/// Mantissa of the fixed-point cube root, rounded toward zero and odd:
/// `cbrt(-x) == -cbrt(x)`.
pub open spec fn fx_cbrt_v(a: int) -> int {
    if a >= 0 {
        cbrt_floor(a * 281474976710656)
    } else {
        -cbrt_floor((-a) * 281474976710656)
    }
}

proof fn lemma_sq_monotone(a: int, b: int)
    by (nonlinear_arith)
    requires
        0 <= a <= b,
    ensures
        a * a <= b * b,
{
}

proof fn lemma_cube_monotone(a: int, b: int)
    by (nonlinear_arith)
    requires
        0 <= a <= b,
    ensures
        a * a * a <= b * b * b,
{
}

/// The floor square root is unique.
pub proof fn lemma_sqrt_floor_unique(n: int, r: int)
    requires
        is_sqrt_floor(n, r),
    ensures
        sqrt_floor(n) == r,
{
    assert(exists|x: int| is_sqrt_floor(n, x));
    let r2 = sqrt_floor(n);
    assert(is_sqrt_floor(n, r2));
    if r < r2 {
        lemma_sq_monotone(r + 1, r2);
        assert(false);
    }
    if r2 < r {
        lemma_sq_monotone(r2 + 1, r);
        assert(false);
    }
}

/// The floor cube root is unique.
pub proof fn lemma_cbrt_floor_unique(n: int, r: int)
    requires
        is_cbrt_floor(n, r),
    ensures
        cbrt_floor(n) == r,
{
    assert(exists|x: int| is_cbrt_floor(n, x));
    let r2 = cbrt_floor(n);
    assert(is_cbrt_floor(n, r2));
    if r < r2 {
        lemma_cube_monotone(r + 1, r2);
        assert(false);
    }
    if r2 < r {
        lemma_cube_monotone(r2 + 1, r);
        assert(false);
    }
}

/// Floor square root of a `u128` below `2^88`, by binary search.
fn isqrt128(n: u128) -> (r: u64)
    requires
        n < 309485009821345068724781056,
    ensures
        is_sqrt_floor(n as int, r as int),
        r < 17592186044416,
{
    let mut lo: u128 = 0;
    let mut hi: u128 = 17592186044416;
    while hi - lo > 1
        invariant
            lo < hi <= 17592186044416,
            lo * lo <= n,
            n < hi * hi,
        decreases hi - lo,
    {
        let mid: u128 = lo + (hi - lo) / 2;
        proof {
            assert(mid * mid <= 17592186044416 * 17592186044416) by (nonlinear_arith)
                requires
                    0 <= mid <= 17592186044416,
            ;
        }
        if mid * mid <= n {
            lo = mid;
        } else {
            hi = mid;
        }
    }
    proof {
        assert(hi == lo + 1);
    }
    lo as u64
}

/// Floor cube root of a `u128` not above `2^111`, by binary search.
fn icbrt128(n: u128) -> (r: u64)
    requires
        n <= 2596148429267413814265248164610048,
    ensures
        is_cbrt_floor(n as int, r as int),
        r < 274877906944,
{
    let mut lo: u128 = 0;
    let mut hi: u128 = 274877906944;
    while hi - lo > 1
        invariant
            lo < hi <= 274877906944,
            lo * lo * lo <= n,
            n < hi * hi * hi,
        decreases hi - lo,
    {
        let mid: u128 = lo + (hi - lo) / 2;
        proof {
            assert(mid * mid <= 274877906944 * 274877906944 && mid * mid * mid
                <= 274877906944 * 274877906944 * 274877906944) by (nonlinear_arith)
                requires
                    0 <= mid <= 274877906944,
            ;
        }
        if mid * mid * mid <= n {
            lo = mid;
        } else {
            hi = mid;
        }
    }
    lo as u64
}

/// Fixed-point square root.  A negative argument yields zero (the solver
/// treats an impossible discriminant as a vanished root).
pub fn fx_sqrt(a: Fx) -> (r: Fx)
    ensures
        r.raw as int == fx_sqrt_v(a.raw as int),
        0 <= r.raw < 17592186044416,
        a.raw >= 0 ==> is_sqrt_floor(a.raw as int * 16777216, r.raw as int),
{
    if a.raw < 0 {
        Fx { raw: 0 }
    } else {
        let n: u128 = (a.raw as u128) * 16777216u128;
        let s: u64 = isqrt128(n);
        proof {
            lemma_sqrt_floor_unique(n as int, s as int);
        }
        Fx { raw: s as i64 }
    }
}

/// Fixed-point cube root, odd symmetric: `cbrt(-x) == -cbrt(x)`.
pub fn fx_cbrt(a: Fx) -> (r: Fx)
    ensures
        r.raw as int == fx_cbrt_v(a.raw as int),
        iabs(r.raw as int) < 274877906944,
{
    let m: u64 = mag64(a.raw);
    let n: u128 = (m as u128) * 281474976710656u128;
    let c: u64 = icbrt128(n);
    proof {
        lemma_cbrt_floor_unique(n as int, c as int);
    }
    if a.raw < 0 {
        Fx { raw: -(c as i64) }
    } else {
        Fx { raw: c as i64 }
    }
}

/// Mantissa of the crate's cosine polynomial: the degree-16 Taylor
/// expansion of the cosine, evaluated innermost-first in fixed point.
pub open spec fn cos_v(x: int) -> int {
    let x2 = fx_mul_v(x, x);
    let t8 = fx_sub_v(16777216, fx_divi_v(x2, 240));
    let t7 = fx_sub_v(16777216, fx_divi_v(fx_mul_v(x2, t8), 182));
    let t6 = fx_sub_v(16777216, fx_divi_v(fx_mul_v(x2, t7), 132));
    let t5 = fx_sub_v(16777216, fx_divi_v(fx_mul_v(x2, t6), 90));
    let t4 = fx_sub_v(16777216, fx_divi_v(fx_mul_v(x2, t5), 56));
    let t3 = fx_sub_v(16777216, fx_divi_v(fx_mul_v(x2, t4), 30));
    let t2 = fx_sub_v(16777216, fx_divi_v(fx_mul_v(x2, t3), 12));
    fx_sub_v(16777216, fx_divi_v(fx_mul_v(x2, t2), 2))
}

/// Fixed-point cosine (Taylor polynomial of degree 16, accurate to about
/// the fixed-point granularity for arguments within `[-pi, pi]`).
pub fn fx_cos(x: Fx) -> (r: Fx)
    ensures
        r.raw as int == cos_v(x.raw as int),
{
    let one: Fx = Fx { raw: 16777216 };
    let x2: Fx = fx_mul(x, x);
    let t8: Fx = fx_sub(one, fx_divi(x2, 240));
    let t7: Fx = fx_sub(one, fx_divi(fx_mul(x2, t8), 182));
    let t6: Fx = fx_sub(one, fx_divi(fx_mul(x2, t7), 132));
    let t5: Fx = fx_sub(one, fx_divi(fx_mul(x2, t6), 90));
    let t4: Fx = fx_sub(one, fx_divi(fx_mul(x2, t5), 56));
    let t3: Fx = fx_sub(one, fx_divi(fx_mul(x2, t4), 30));
    let t2: Fx = fx_sub(one, fx_divi(fx_mul(x2, t3), 12));
    fx_sub(one, fx_divi(fx_mul(x2, t2), 2))
}

/// One bisection pass of the arccosine inversion: after `k` halvings of
/// `[lo, hi]` the lower end is the result.
pub open spec fn acos_iter_v(y: int, lo: int, hi: int, k: nat) -> int
    decreases k,
{
    if k == 0 {
        lo
    } else {
        let mid = (lo + hi) / 2;
        if cos_v(mid) >= y {
            acos_iter_v(y, mid, hi, (k - 1) as nat)
        } else {
            acos_iter_v(y, lo, mid, (k - 1) as nat)
        }
    }
}

/// Mantissa of the fixed-point arccosine: the argument is clamped into
/// `[-1, 1]`, then the cosine polynomial is inverted by 32 bisection steps
/// over `[0, pi]`.
pub open spec fn acos_v(y: int) -> int {
    acos_iter_v(clamp_v(y, -16777216, 16777216), 0, 52707178, 32)
}

fn acos_iter(y: Fx, lo: i64, hi: i64, k: u32) -> (r: i64)
    requires
        0 <= lo <= hi <= 52707178,
    ensures
        r as int == acos_iter_v(y.raw as int, lo as int, hi as int, k as nat),
        lo <= r <= hi,
    decreases k,
{
    if k == 0 {
        lo
    } else {
        let mid: i64 = ((lo as u64 + hi as u64) / 2) as i64;
        let c: Fx = fx_cos(Fx { raw: mid });
        if c.raw >= y.raw {
            acos_iter(y, mid, hi, k - 1)
        } else {
            acos_iter(y, lo, mid, k - 1)
        }
    }
}

/// Fixed-point arccosine on `[-1, 1]` (arguments outside are clamped),
/// returning a value in `[0, pi]`.
pub fn fx_acos(y: Fx) -> (r: Fx)
    ensures
        r.raw as int == acos_v(y.raw as int),
        0 <= r.raw <= 52707178,
{
    let neg_one: Fx = Fx { raw: -16777216 };
    let one: Fx = Fx { raw: 16777216 };
    let yc: Fx = crate::fx::fx_clamp(y, neg_one, one);
    let r: i64 = acos_iter(yc, 0, FX_PI_RAW, 32);
    Fx { raw: r }
}

} // verus!
