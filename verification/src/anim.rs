//! Keyframe tracks: control points, looping time normalization, segment
//! location and blend-factor shaping.
//!
//! Times are plain nanosecond counts: a point's time is a `u64`, a query
//! is a signed `i128` (negative queries loop symmetrically).  Channel
//! values are fixed-point scalars ([`crate::fx::Fx`]).

use vstd::prelude::*;

use crate::fx::{fx_add_v, fx_mul_v, fx_sub_v, iabs, mag64, sat64, sat_signed, tdiv, Fx};

verus! {

/// One Bezier tangent handle: a time offset in nanoseconds and a value
/// offset, relative to the segment end point that owns it.
#[derive(Clone, Copy, Debug)]
pub struct AnimBezierHandle {
    pub x: i64,
    pub y: Fx,
}

/// The pair of tangent handles of one channel of a Bezier segment.
#[derive(Clone, Copy, Debug)]
pub struct AnimBezierPoint {
    pub out_tangent: AnimBezierHandle,
    pub in_tangent: AnimBezierHandle,
}

/// Per-channel tangent handles of a Bezier segment.
#[derive(Clone, Debug)]
pub struct AnimBeziers {
    pub value: Vec<AnimBezierPoint>,
}

/// Interpolation kind of the segment that starts at a control point.
#[derive(Clone, Debug)]
pub enum AnimPointCurveType {
    Step,
    Linear,
    Slow,
    Fast,
    Smooth,
    Bezier(AnimBeziers),
}

/// One keyframe: a time, one fixed-point value per channel, and the
/// interpolation kind of the segment it starts.
#[derive(Clone, Debug)]
pub struct AnimPoint {
    pub time: u64,
    pub value: Vec<Fx>,
    pub curve_type: AnimPointCurveType,
}

/// Track well-formedness: times are non-decreasing and every point carries
/// at least `channels` channel values (and tangent pairs, for Bezier).
pub open spec fn points_wf(points: Seq<AnimPoint>, channels: int) -> bool {
    &&& forall|i: int, j: int|
        0 <= i <= j < points.len() ==> #[trigger] points[i].time <= #[trigger] points[j].time
    &&& forall|i: int| 0 <= i < points.len() ==> #[trigger] points[i].value@.len() >= channels
    &&& forall|i: int|
        0 <= i < points.len() ==> (#[trigger] points[i].curve_type matches
            AnimPointCurveType::Bezier(b) ==> b.value@.len() >= channels)
}

/// The normalized query time: the query's magnitude folded into the
/// track's time range `[first, last]` by modulo, with an all-zero track
/// pinned to zero and a zero-span track pinned to its single instant.
pub open spec fn normalized_time_v(points: Seq<AnimPoint>, q: int) -> int
    recommends
        points.len() >= 1,
{
    let first = points[0].time as int;
    let last = points[points.len() - 1].time as int;
    if last == 0 {
        0
    } else if last - first == 0 {
        first
    } else {
        first + iabs(q) % (last - first)
    }
}

/// The first index at or after `i` whose point time exceeds `t` (the
/// partition point of the predicate `time <= t`).
pub open spec fn first_gt(points: Seq<AnimPoint>, t: int, i: int) -> int
    decreases points.len() - i,
{
    if i < 0 || i >= points.len() {
        points.len() as int
    } else if points[i].time > t {
        i
    } else {
        first_gt(points, t, i + 1)
    }
}

/// Index of the segment's earlier control point for normalized time `n`.
pub open spec fn seg_prev_idx(points: Seq<AnimPoint>, n: int) -> int {
    let i0 = first_gt(points, n, 0);
    if i0 > 0 {
        i0 - 1
    } else {
        0
    }
}

/// Index of the segment's later control point for normalized time `n`.
pub open spec fn seg_next_idx(points: Seq<AnimPoint>, n: int) -> int {
    let i0 = first_gt(points, n, 0);
    if i0 > points.len() - 1 {
        points.len() - 1
    } else {
        i0
    }
}

/// `first_gt` really is the partition point: everything before it is at or
/// below `t`, and the point at it (if any) is above `t`.
pub proof fn lemma_first_gt_props(points: Seq<AnimPoint>, t: int, i: int)
    requires
        0 <= i <= points.len(),
    ensures
        i <= first_gt(points, t, i) <= points.len(),
        forall|j: int| i <= j < first_gt(points, t, i) ==> #[trigger] points[j].time <= t,
        first_gt(points, t, i) < points.len() ==> points[first_gt(points, t, i)].time > t,
    decreases points.len() - i,
{
    if i < points.len() && points[i].time <= t {
        lemma_first_gt_props(points, t, i + 1);
    }
}

proof fn lemma_first_gt_from(points: Seq<AnimPoint>, t: int, i: int, k: int)
    requires
        0 <= i <= k <= points.len(),
        forall|j: int| i <= j < k ==> #[trigger] points[j].time <= t,
        k < points.len() ==> points[k].time > t,
    ensures
        first_gt(points, t, i) == k,
    decreases k - i,
{
    if i < k {
        lemma_first_gt_from(points, t, i + 1, k);
    }
}

/// A position that splits the track into `time <= t` and `time > t` is the
/// partition point.
pub proof fn lemma_first_gt_of_partition(points: Seq<AnimPoint>, t: int, k: int)
    requires
        0 <= k <= points.len(),
        forall|j: int| 0 <= j < k ==> #[trigger] points[j].time <= t,
        k < points.len() ==> points[k].time > t,
    ensures
        first_gt(points, t, 0) == k,
{
    lemma_first_gt_from(points, t, 0, k);
}

/// Magnitude of an `i128` query time (total, also for `i128::MIN`).
pub(crate) fn uabs_i128(q: i128) -> (r: u128)
    ensures
        r as int == iabs(q as int),
{
    if q >= 0 {
        q as u128
    } else {
        let w: i128 = -(q + 1);
        (w as u128) + 1
    }
}

/// Fold a query time into the track's time range.
pub(crate) fn normalize_time(points: &Vec<AnimPoint>, q: i128) -> (r: u64)
    requires
        points@.len() >= 1,
        points@[0].time <= points@[points@.len() - 1].time,
    ensures
        r as int == normalized_time_v(points@, q as int),
        points@[0].time <= r <= points@[points@.len() - 1].time,
{
    let last: u64 = points[points.len() - 1].time;
    if last == 0 {
        0
    } else {
        let first: u64 = points[0].time;
        let span: u64 = last - first;
        if span == 0 {
            first
        } else {
            let m: u128 = uabs_i128(q) % (span as u128);
            first + (m as u64)
        }
    }
}

/// Partition point of the track for time `t`: the first index whose point
/// time exceeds `t`, found by binary search.
pub(crate) fn partition_idx(points: &Vec<AnimPoint>, t: u64) -> (r: usize)
    requires
        forall|i: int, j: int|
            0 <= i <= j < points@.len()
                ==> #[trigger] points@[i].time <= #[trigger] points@[j].time,
    ensures
        r as int == first_gt(points@, t as int, 0),
        r <= points@.len(),
{
    let mut lo: usize = 0;
    let mut hi: usize = points.len();
    while lo < hi
        invariant
            lo <= hi <= points@.len(),
            forall|j: int| 0 <= j < lo ==> #[trigger] points@[j].time <= t,
            forall|j: int| hi <= j < points@.len() ==> #[trigger] points@[j].time > t,
            forall|i: int, j: int|
                0 <= i <= j < points@.len()
                    ==> #[trigger] points@[i].time <= #[trigger] points@[j].time,
        decreases hi - lo,
    {
        let mid: usize = lo + (hi - lo) / 2;
        if points[mid].time <= t {
            lo = mid + 1;
        } else {
            hi = mid;
        }
    }
    proof {
        lemma_first_gt_of_partition(points@, t as int, lo as int);
    }
    lo
}

/// The clamped divisor of a segment: its span in nanoseconds, floored at
/// 100 to keep the blend division well defined for stacked points.
pub open spec fn seg_delta_v(t1: int, t2: int) -> int {
    if t2 - t1 > 100 {
        t2 - t1
    } else {
        100
    }
}

/// The raw blend factor: segment progress scaled to `2^24`, truncated.
pub open spec fn blend_v(n: int, t1: int, t2: int) -> int {
    ((n - t1) * 16777216) / seg_delta_v(t1, t2)
}

/// Compute the raw blend factor for normalized time `n` in the segment
/// `[t1, t2]`; always in `[0, 1]` in fixed point.
pub(crate) fn blend_factor(n: u64, t1: u64, t2: u64) -> (r: Fx)
    requires
        t1 <= n,
        t1 <= t2,
        n - t1 <= seg_delta_v(t1 as int, t2 as int),
    ensures
        r.raw as int == blend_v(n as int, t1 as int, t2 as int),
        0 <= r.raw <= 16777216,
{
    let dt: u64 = t2 - t1;
    let delta: u64 = if dt > 100 { dt } else { 100 };
    let num: u128 = ((n - t1) as u128) * 16777216u128;
    let q: u128 = num / (delta as u128);
    proof {
        assert(num as int <= (delta as int) * 16777216) by (nonlinear_arith)
            requires
                num as int == ((n - t1) as int) * 16777216,
                0 <= (n - t1) as int <= delta as int,
        ;
        assert(q as int <= 16777216) by (nonlinear_arith)
            requires
                q as int == (num as int) / (delta as int),
                num as int <= (delta as int) * 16777216,
                delta as int >= 1,
        ;
    }
    Fx { raw: q as i64 }
}

/// Mantissa of the blend factor after shaping by the segment's
/// interpolation kind (`a` is the raw factor; Bezier keeps it, the Bezier
/// path replaces it per channel by a solved curve parameter).
pub open spec fn shape_v(ct: AnimPointCurveType, a: int) -> int {
    match ct {
        AnimPointCurveType::Step => 0,
        AnimPointCurveType::Linear => a,
        AnimPointCurveType::Slow => fx_mul_v(fx_mul_v(a, a), a),
        AnimPointCurveType::Fast => {
            let b = fx_sub_v(16777216, a);
            fx_sub_v(16777216, fx_mul_v(fx_mul_v(b, b), b))
        },
        AnimPointCurveType::Smooth => fx_add_v(
            fx_mul_v(fx_mul_v(fx_mul_v(-33554432, a), a), a),
            fx_mul_v(fx_mul_v(50331648, a), a),
        ),
        AnimPointCurveType::Bezier(_) => a,
    }
}

/// Shape the blend factor by the segment's interpolation kind.
pub fn shape_blend(ct: &AnimPointCurveType, a: Fx) -> (r: Fx)
    ensures
        r.raw as int == shape_v(*ct, a.raw as int),
{
    let one: Fx = Fx { raw: 16777216 };
    match ct {
        AnimPointCurveType::Step => Fx { raw: 0 },
        AnimPointCurveType::Linear => a,
        AnimPointCurveType::Slow => crate::fx::fx_mul(crate::fx::fx_mul(a, a), a),
        AnimPointCurveType::Fast => {
            let b: Fx = crate::fx::fx_sub(one, a);
            crate::fx::fx_sub(one, crate::fx::fx_mul(crate::fx::fx_mul(b, b), b))
        },
        AnimPointCurveType::Smooth => {
            let m2: Fx = Fx { raw: -33554432 };
            let p3: Fx = Fx { raw: 50331648 };
            crate::fx::fx_add(
                crate::fx::fx_mul(crate::fx::fx_mul(crate::fx::fx_mul(m2, a), a), a),
                crate::fx::fx_mul(crate::fx::fx_mul(p3, a), a),
            )
        },
        AnimPointCurveType::Bezier(_) => a,
    }
}

/// Mantissa of a nonnegative nanosecond count expressed in fixed-point
/// milliseconds.
pub open spec fn ms_u_v(ns: int) -> int {
    sat64((ns * 16777216) / 1000000)
}

/// Mantissa of a signed nanosecond offset expressed in fixed-point
/// milliseconds, truncated toward zero.
pub open spec fn ms_i_v(ns: int) -> int {
    sat64(tdiv(ns * 16777216, 1000000))
}

/// Express a point time (nanoseconds) in fixed-point milliseconds.
pub(crate) fn fx_ms_of_ns_u(ns: u64) -> (r: Fx)
    ensures
        r.raw as int == ms_u_v(ns as int),
{
    let v: u128 = (ns as u128) * 16777216u128;
    let q: u128 = v / 1000000u128;
    Fx { raw: sat_signed(q, false) }
}

/// Express a signed tangent time offset (nanoseconds) in fixed-point
/// milliseconds; with `flip` the offset is negated first.
pub(crate) fn fx_ms_of_ns_i(ns: i64, flip: bool) -> (r: Fx)
    ensures
        r.raw as int == ms_i_v(if flip { -(ns as int) } else { ns as int }),
{
    let m: u128 = (mag64(ns) as u128) * 16777216u128;
    let q: u128 = m / 1000000u128;
    let neg: bool = if flip { ns > 0 } else { ns < 0 };
    proof {
        crate::fx::lemma_mag_mul(ns as int, 16777216);
        crate::fx::lemma_mag_mul(-(ns as int), 16777216);
    }
    Fx { raw: sat_signed(q, neg) }
}

/// Milliseconds conversion is monotone in the nanosecond count.
pub proof fn lemma_ms_u_monotone(t1: int, t2: int)
    requires
        0 <= t1 <= t2,
    ensures
        ms_u_v(t1) <= ms_u_v(t2),
{
    vstd::arithmetic::div_mod::lemma_div_is_ordered(t1 * 16777216, t2 * 16777216, 1000000);
}

} // verus!
