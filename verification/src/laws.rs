//! Laws of the evaluator: properties that hold of every well-formed track,
//! stated over the functional specifications and proved once and for all.

use vstd::prelude::*;

use crate::anim::{
    blend_v, normalized_time_v, points_wf, seg_next_idx, seg_prev_idx, shape_v, AnimPoint,
    AnimPointCurveType,
};
use crate::fx::{fx_add_v, fx_mul_v, fx_sub_v, iabs, mix_v, sat64, Fx};
use crate::render_tools::{eval_anim_v, eval_at_v};

verus! {

/// Interpolating with a zero blend factor returns the first value exactly.
pub proof fn lemma_mix_zero(v0: int, v1: int)
    requires
        i64::MIN <= v0 <= i64::MAX,
    ensures
        mix_v(v0, v1, 0) == v0,
{
    assert(fx_sub_v(v1, v0) * 0 == 0);
}

/// Multiplying by one in fixed point leaves the mantissa unchanged.
pub proof fn lemma_fx_mul_one(a: int)
    ensures
        fx_mul_v(a, 16777216) == sat64(a),
{
    crate::fx::lemma_mag_mul(a, 16777216);
    vstd::arithmetic::div_mod::lemma_div_multiples_vanish(iabs(a), 16777216);
    assert(16777216 * iabs(a) == iabs(a) * 16777216) by (nonlinear_arith);
    assert(iabs(a * 16777216) / 16777216 == iabs(a));
}

/// Every non-Bezier interpolation kind maps a zero blend factor to zero.
pub proof fn lemma_shape_zero(ct: AnimPointCurveType)
    requires
        !(ct is Bezier),
    ensures
        shape_v(ct, 0) == 0,
{
    match ct {
        AnimPointCurveType::Step => {
        },
        AnimPointCurveType::Linear => {
        },
        AnimPointCurveType::Slow => {
            assert(fx_mul_v(0, 0) == 0);
        },
        AnimPointCurveType::Fast => {
            let b = fx_sub_v(16777216, 0);
            assert(b == 16777216);
            lemma_fx_mul_one(b);
            lemma_fx_mul_one(fx_mul_v(b, b));
        },
        AnimPointCurveType::Smooth => {
            assert(fx_mul_v(-33554432, 0) == 0);
            assert(fx_mul_v(50331648, 0) == 0);
        },
        AnimPointCurveType::Bezier(_) => {
        },
    }
}

/// Interpolating with a blend factor of one returns the second value
/// exactly, as long as the difference of the values fits the mantissa.
pub proof fn lemma_mix_one(v0: int, v1: int)
    requires
        i64::MIN <= v1 <= i64::MAX,
        iabs(v1 - v0) <= i64::MAX,
    ensures
        mix_v(v0, v1, 16777216) == v1,
{
    lemma_fx_mul_one(fx_sub_v(v1, v0));
}

/// De Casteljau endpoint fidelity: at parameter zero the curve sits
/// exactly on its first control value, at parameter one exactly on its
/// last, as long as no difference of neighbouring control values
/// overflows the mantissa.
pub proof fn lemma_bezier_endpoint_fidelity(p0: int, p1: int, p2: int, p3: int)
    requires
        i64::MIN <= p0 <= i64::MAX,
        i64::MIN <= p1 <= i64::MAX,
        i64::MIN <= p2 <= i64::MAX,
        i64::MIN <= p3 <= i64::MAX,
        iabs(p1 - p0) <= i64::MAX,
        iabs(p2 - p1) <= i64::MAX,
        iabs(p3 - p2) <= i64::MAX,
    ensures
        crate::render_tools::bezier_v(p0, p1, p2, p3, 0) == p0,
        crate::render_tools::bezier_v(p0, p1, p2, p3, 16777216) == p3,
{
    lemma_mix_zero(p0, p1);
    lemma_mix_zero(p1, p2);
    lemma_mix_zero(p2, p3);
    lemma_mix_one(p0, p1);
    lemma_mix_one(p1, p2);
    lemma_mix_one(p2, p3);
}

/// Smooth blending is exact at the segment ends: the Hermite basis
/// `-2 a^3 + 3 a^2` evaluates to exactly `0` at `a == 0` and exactly `1`
/// at `a == 1` in fixed point.
pub proof fn lemma_smooth_blend_boundary()
    ensures
        shape_v(AnimPointCurveType::Smooth, 0) == 0,
        shape_v(AnimPointCurveType::Smooth, 16777216) == 16777216,
{
    lemma_shape_zero(AnimPointCurveType::Smooth);
    lemma_fx_mul_one(-33554432);
    let u1 = fx_mul_v(-33554432, 16777216);
    assert(u1 == -33554432);
    lemma_fx_mul_one(u1);
    let u2 = fx_mul_v(u1, 16777216);
    assert(u2 == -33554432);
    lemma_fx_mul_one(u2);
    let u3 = fx_mul_v(u2, 16777216);
    assert(u3 == -33554432);
    lemma_fx_mul_one(50331648);
    let w1 = fx_mul_v(50331648, 16777216);
    assert(w1 == 50331648);
    lemma_fx_mul_one(w1);
    let w2 = fx_mul_v(w1, 16777216);
    assert(w2 == 50331648);
    assert(fx_add_v(u3, w2) == 16777216);
}

/// Looping idempotence: advancing the query by any whole number of track
/// spans past the last point's time evaluates exactly as the last point's
/// time itself does.
pub proof fn lemma_looping_idempotent(points: Seq<AnimPoint>, channels: int, k: int)
    requires
        points_wf(points, channels),
        points.len() >= 2,
        k >= 0,
    ensures
        eval_anim_v(
            points,
            points[points.len() - 1].time + k * (points[points.len() - 1].time
                - points[0].time),
            channels,
        ) == eval_anim_v(points, points[points.len() - 1].time as int, channels),
{
    let first = points[0].time as int;
    let last = points[points.len() - 1].time as int;
    let span = last - first;
    let q = last + k * span;
    assert(points[0].time <= points[points.len() - 1].time);
    if span == 0 {
        assert(k * span == 0) by (nonlinear_arith)
            requires
                span == 0,
        ;
    } else {
        assert(k * span >= 0) by (nonlinear_arith)
            requires
                k >= 0,
                span >= 0,
        ;
        if last != 0 {
            vstd::arithmetic::mul::lemma_mul_is_commutative(k, span);
            vstd::arithmetic::div_mod::lemma_mod_multiples_vanish(k, last, span);
            assert(iabs(q) == q);
            assert(iabs(last) == last);
            assert(normalized_time_v(points, q) == normalized_time_v(points, last));
        }
    }
}

/// A step segment holds its earlier point's value on every channel, no
/// matter where inside the segment the query falls.
pub proof fn lemma_step_holds_prev_value(points: Seq<AnimPoint>, channels: int, q: int)
    requires
        points_wf(points, channels),
        points.len() >= 2,
        points[seg_prev_idx(points, normalized_time_v(points, q))].curve_type is Step,
    ensures
        forall|c: int|
            0 <= c < channels ==> eval_anim_v(points, q, channels)[c] == points[seg_prev_idx(
                points,
                normalized_time_v(points, q),
            )].value@[c],
{
    let n = normalized_time_v(points, q);
    let prev = points[seg_prev_idx(points, n)];
    let next = points[seg_next_idx(points, n)];
    assert forall|c: int| 0 <= c < channels implies eval_anim_v(points, q, channels)[c]
        == prev.value@[c] by {
        let v0 = prev.value@[c].raw as int;
        let v1 = next.value@[c].raw as int;
        lemma_mix_zero(v0, v1);
        assert(eval_at_v(points, n, channels)[c] == prev.value@[c]);
    }
}

/// Linear midpoint exactness: when the query normalizes to the exact
/// middle of a two-point linear segment, every output channel is the
/// average of the two point values, up to the one mantissa bit that
/// truncation toward zero may lose: `s - 1 <= 2 r <= s + 1` for the value
/// sum `s`.
pub proof fn lemma_linear_midpoint(points: Seq<AnimPoint>, channels: int, q: int)
    requires
        points_wf(points, channels),
        points.len() == 2,
        points[0].curve_type is Linear,
        points[1].time - points[0].time > 100,
        (points[1].time - points[0].time) % 2 == 0,
        normalized_time_v(points, q) == points[0].time + (points[1].time - points[0].time) / 2,
        forall|c: int|
            0 <= c < channels ==> iabs(
                #[trigger] points[1].value@[c].raw - points[0].value@[c].raw,
            ) <= i64::MAX,
    ensures
        forall|c: int|
            0 <= c < channels ==> {
                let s = points[0].value@[c].raw + points[1].value@[c].raw;
                let r = (#[trigger] eval_anim_v(points, q, channels)[c]).raw;
                s - 1 <= 2 * r <= s + 1
            },
{
    let n = normalized_time_v(points, q);
    let t0 = points[0].time as int;
    let t1 = points[1].time as int;
    let span = t1 - t0;
    let h = span / 2;
    vstd::arithmetic::div_mod::lemma_fundamental_div_mod(span, 2);
    assert(span == 2 * h);
    assert(points[0].time <= n);
    assert(n < points[1].time);
    crate::anim::lemma_first_gt_of_partition(points, n, 1);
    assert(seg_prev_idx(points, n) == 0);
    assert(seg_next_idx(points, n) == 1);

    // the raw blend factor is exactly one half
    vstd::arithmetic::div_mod::lemma_div_multiples_vanish_quotient(h, 16777216, 2);
    assert(h * 16777216 == 16777216 * h) by (nonlinear_arith);
    assert(h * 2 == 2 * h) by (nonlinear_arith);
    assert((n - t0) * 16777216 == h * 16777216);
    assert(blend_v(n, t0, t1) == 8388608);

    assert forall|c: int| 0 <= c < channels implies {
        let s = points[0].value@[c].raw + points[1].value@[c].raw;
        let r = (#[trigger] eval_anim_v(points, q, channels)[c]).raw;
        s - 1 <= 2 * r <= s + 1
    } by {
        let v0 = points[0].value@[c].raw as int;
        let v1 = points[1].value@[c].raw as int;
        let d = v1 - v0;
        assert(fx_sub_v(v1, v0) == d);
        // multiplying by one half halves, truncating toward zero
        crate::fx::lemma_mag_mul(d, 8388608);
        vstd::arithmetic::div_mod::lemma_div_multiples_vanish_quotient(8388608, iabs(d), 2);
        assert(8388608 * iabs(d) == iabs(d) * 8388608) by (nonlinear_arith);
        assert(8388608 * 2 == 16777216);
        assert(iabs(d) / 2 == (iabs(d) * 8388608) / 16777216);
        assert(fx_mul_v(d, 8388608) == crate::fx::tdiv(d, 2));
        let half = crate::fx::tdiv(d, 2);
        vstd::arithmetic::div_mod::lemma_fundamental_div_mod(iabs(d), 2);
        assert(d >= 0 ==> 2 * half == d - d % 2);
        assert(d < 0 ==> 2 * half == d + (-d) % 2);
        assert(fx_add_v(v0, half) == v0 + half);
        assert(eval_at_v(points, n, channels)[c] == (Fx { raw: (v0 + half) as i64 }));
    }
}

/// Querying exactly at the earlier point's time of a non-Bezier segment
/// returns that point's value exactly, whatever the interpolation kind.
pub proof fn lemma_segment_start_exact(points: Seq<AnimPoint>, channels: int, q: int)
    requires
        points_wf(points, channels),
        points.len() >= 2,
        normalized_time_v(points, q) == points[seg_prev_idx(
            points,
            normalized_time_v(points, q),
        )].time,
        !(points[seg_prev_idx(points, normalized_time_v(points, q))].curve_type is Bezier),
    ensures
        forall|c: int|
            0 <= c < channels ==> eval_anim_v(points, q, channels)[c] == points[seg_prev_idx(
                points,
                normalized_time_v(points, q),
            )].value@[c],
{
    let n = normalized_time_v(points, q);
    let prev = points[seg_prev_idx(points, n)];
    let next = points[seg_next_idx(points, n)];
    assert(blend_v(n, prev.time as int, next.time as int) == 0);
    lemma_shape_zero(prev.curve_type);
    assert forall|c: int| 0 <= c < channels implies eval_anim_v(points, q, channels)[c]
        == prev.value@[c] by {
        let v0 = prev.value@[c].raw as int;
        let v1 = next.value@[c].raw as int;
        lemma_mix_zero(v0, v1);
        assert(eval_at_v(points, n, channels)[c] == prev.value@[c]);
    }
}

} // verus!
