//! The curve evaluator: analytic root solve for monotonic cubic Bezier
//! time curves, De Casteljau evaluation, and the per-frame keyframe
//! evaluator that ties normalization, segment location and blending
//! together.

use vstd::prelude::*;

use crate::anim::{
    blend_factor, blend_v, fx_ms_of_ns_i, fx_ms_of_ns_u, lemma_first_gt_props,
    lemma_ms_u_monotone, ms_i_v, ms_u_v, normalize_time, normalized_time_v, partition_idx,
    points_wf, seg_next_idx, seg_prev_idx, shape_blend, shape_v, AnimBeziers, AnimPoint,
    AnimPointCurveType,
};
use crate::fx::{
    clamp_v, fx_add, fx_add_v, fx_clamp, fx_div, fx_div_v, fx_mul, fx_mul_v, fx_neg, fx_neg_v,
    fx_sub, fx_sub_v, lemma_mag_mul, mix, mix_v, Fx,
};
use crate::roots::{
    acos_v, cos_v, fx_acos, fx_cbrt, fx_cbrt_v, fx_cos, fx_sqrt, fx_sqrt_v, is_sqrt_floor,
};

verus! {

/// Render pass kind of a map layer.
pub enum LayerRenderFlag {
    Opaque,
    Transparent,
}

impl LayerRenderFlag {
    /// The numeric flag bit of this render pass.
    pub fn value(&self) -> (r: u32)
        ensures
            r == (match self {
                LayerRenderFlag::Opaque => 1u32,
                LayerRenderFlag::Transparent => 2u32,
            }),
    {
        match self {
            LayerRenderFlag::Opaque => 1,
            LayerRenderFlag::Transparent => 2,
        }
    }
}

/// Tile rendering option flags.
pub enum TileRenderFlag {
    Extend,
}

impl TileRenderFlag {
    /// The numeric flag bit of this option.
    pub fn value(&self) -> (r: u32)
        ensures
            r == 4u32,
    {
        match self {
            TileRenderFlag::Extend => 4,
        }
    }
}

/// Namespace for the curve evaluation routines.
pub struct RenderTools {}

/// Mantissa returned by the cubic/quadratic/linear root solve for target
/// `x` over the time control mantissas `p0..p3` (the functional mirror of
/// [`RenderTools::solve_bezier`]).  The polynomial is the Bezier expansion
/// `x3 t^3 + x2 t^2 + x1 t + x0`; degenerate leading coefficients fall
/// back to the lower-degree solve, and roots are selected by the fixed
/// policy: the first computed root within `[0, 1.0001]`, else the last
/// alternative unconditionally.
pub open spec fn solve_bezier_v(x: int, p0: int, p1: int, p2: int, p3: int) -> int {
    let x3 = fx_add_v(
        fx_sub_v(fx_add_v(fx_neg_v(p0), fx_mul_v(50331648, p1)), fx_mul_v(50331648, p2)),
        p3,
    );
    let x2 = fx_add_v(
        fx_sub_v(fx_mul_v(50331648, p0), fx_mul_v(100663296, p1)),
        fx_mul_v(50331648, p2),
    );
    let x1 = fx_add_v(fx_mul_v(-50331648, p0), fx_mul_v(50331648, p1));
    let x0 = fx_sub_v(p0, x);
    if x3 == 0 && x2 == 0 {
        if x1 == 0 {
            0
        } else {
            fx_div_v(fx_neg_v(x0), x1)
        }
    } else if x3 == 0 {
        let b = fx_div_v(x1, x2);
        let c = fx_div_v(x0, x2);
        if c == 0 {
            0
        } else {
            let d = fx_sub_v(fx_mul_v(b, b), fx_mul_v(67108864, c));
            let s = fx_sqrt_v(d);
            let t = fx_div_v(fx_add_v(fx_neg_v(b), s), 33554432);
            if 0 <= t && t <= 16778893 {
                t
            } else {
                fx_div_v(fx_sub_v(fx_neg_v(b), s), 33554432)
            }
        }
    } else {
        let a = fx_div_v(x2, x3);
        let b = fx_div_v(x1, x3);
        let c = fx_div_v(x0, x3);
        let sub = fx_div_v(a, 50331648);
        let p = fx_sub_v(fx_div_v(b, 50331648), fx_div_v(fx_mul_v(a, a), 150994944));
        let q = fx_div_v(
            fx_add_v(
                fx_sub_v(
                    fx_div_v(fx_mul_v(fx_mul_v(fx_mul_v(33554432, a), a), a), 452984832),
                    fx_div_v(fx_mul_v(a, b), 50331648),
                ),
                c,
            ),
            33554432,
        );
        let d = fx_add_v(fx_mul_v(q, q), fx_mul_v(fx_mul_v(p, p), p));
        if d > 0 {
            let s = fx_sqrt_v(d);
            fx_sub_v(fx_sub_v(fx_cbrt_v(fx_sub_v(s, q)), fx_cbrt_v(fx_add_v(s, q))), sub)
        } else if d == 0 {
            let s = fx_cbrt_v(fx_neg_v(q));
            let t = fx_sub_v(fx_mul_v(33554432, s), sub);
            if 0 <= t && t <= 16778893 {
                t
            } else {
                fx_sub_v(fx_neg_v(s), sub)
            }
        } else {
            let pc = fx_mul_v(fx_mul_v(p, p), p);
            let phi = fx_div_v(
                acos_v(fx_div_v(fx_neg_v(q), fx_sqrt_v(fx_neg_v(pc)))),
                50331648,
            );
            let s = fx_mul_v(33554432, fx_sqrt_v(fx_neg_v(p)));
            let t1 = fx_sub_v(fx_mul_v(s, cos_v(phi)), sub);
            if 0 <= t1 && t1 <= 16778893 {
                t1
            } else {
                let t2 = fx_sub_v(
                    fx_mul_v(fx_neg_v(s), cos_v(fx_add_v(phi, fx_div_v(52707178, 50331648)))),
                    sub,
                );
                if 0 <= t2 && t2 <= 16778893 {
                    t2
                } else {
                    fx_sub_v(
                        fx_mul_v(fx_neg_v(s), cos_v(fx_sub_v(phi, fx_div_v(52707178, 50331648)))),
                        sub,
                    )
                }
            }
        }
    }
}

/// Mantissa of the cubic Bezier value at parameter `amount`, by two rounds
/// of linear interpolation collapsing four control values to one (the
/// functional mirror of [`RenderTools::bezier`]).
pub open spec fn bezier_v(p0: int, p1: int, p2: int, p3: int, amount: int) -> int {
    let c10 = mix_v(p0, p1, amount);
    let c11 = mix_v(p1, p2, amount);
    let c12 = mix_v(p2, p3, amount);
    let c20 = mix_v(c10, c11, amount);
    let c21 = mix_v(c11, c12, amount);
    mix_v(c20, c21, amount)
}

/// One channel of a Bezier segment: build the 2-D control polygon in the
/// (fixed-point milliseconds, value) plane, clamp the inner time controls
/// for monotonicity, solve the time curve for the parameter at the
/// normalized query time `n`, clamp it into `[0, 1]` and evaluate the
/// value curve there.
pub open spec fn bezier_channel_v(
    prev: AnimPoint,
    next: AnimPoint,
    bez: AnimBeziers,
    n: int,
    c: int,
) -> Fx {
    let p0x = ms_u_v(prev.time as int);
    let p3x = ms_u_v(next.time as int);
    let p0y = prev.value@[c].raw as int;
    let p3y = next.value@[c].raw as int;
    let otx = ms_i_v(bez.value@[c].out_tangent.x as int);
    let oty = bez.value@[c].out_tangent.y.raw as int;
    let itx = ms_i_v(-(bez.value@[c].in_tangent.x as int));
    let ity = bez.value@[c].in_tangent.y.raw as int;
    let p1x = clamp_v(fx_add_v(p0x, otx), p0x, p3x);
    let p1y = fx_add_v(p0y, oty);
    let p2x = clamp_v(fx_add_v(p3x, itx), p0x, p3x);
    let p2y = fx_add_v(p3y, ity);
    let xt = ms_u_v(n);
    let t = clamp_v(solve_bezier_v(xt, p0x, p1x, p2x, p3x), 0, 16777216);
    Fx { raw: bezier_v(p0y, p1y, p2y, p3y, t) as i64 }
}

/// The evaluated channels for a normalized time `n` on a track of at
/// least two points: locate the bracketing pair, then blend each channel
/// by the earlier point's interpolation kind.
pub open spec fn eval_at_v(points: Seq<AnimPoint>, n: int, channels: int) -> Seq<Fx>
    recommends
        points.len() >= 2,
{
    let prev = points[seg_prev_idx(points, n)];
    let next = points[seg_next_idx(points, n)];
    match prev.curve_type {
        AnimPointCurveType::Bezier(bez) => Seq::new(
            channels as nat,
            |c: int| bezier_channel_v(prev, next, bez, n, c),
        ),
        _ => {
            let s = shape_v(prev.curve_type, blend_v(n, prev.time as int, next.time as int));
            Seq::new(
                channels as nat,
                |c: int|
                    (Fx {
                        raw: mix_v(
                            prev.value@[c].raw as int,
                            next.value@[c].raw as int,
                            s,
                        ) as i64,
                    }),
            )
        },
    }
}

/// The full evaluator: zero on every channel for an empty track, the
/// single point's value verbatim for a one-point track, and otherwise the
/// segment blend at the normalized query time.
pub open spec fn eval_anim_v(points: Seq<AnimPoint>, q: int, channels: int) -> Seq<Fx> {
    if points.len() == 0 {
        Seq::new(channels as nat, |c: int| (Fx { raw: 0i64 }))
    } else if points.len() == 1 {
        points[0].value@
    } else {
        eval_at_v(points, normalized_time_v(points, q), channels)
    }
}

impl RenderTools {
    /// Solve the Bezier time equation `x(t) == x` for `t`.
    ///
    /// The coefficients are the standard Bezier-to-polynomial expansion of
    /// the control mantissas; exact zero tests on the computed
    /// coefficients select the linear, quadratic or cubic path, and the
    /// fixed selection policy picks among multiple roots.  A negative
    /// radicand under a square root (reachable only through rounding, when
    /// no real root exists) is treated as a vanished root of zero.
    #[verifier::rlimit(100)]
    pub fn solve_bezier(x: Fx, p0: Fx, p1: Fx, p2: Fx, p3: Fx) -> (r: Fx)
        ensures
            r.raw as int == solve_bezier_v(
                x.raw as int,
                p0.raw as int,
                p1.raw as int,
                p2.raw as int,
                p3.raw as int,
            ),
    {
        let zero: Fx = Fx { raw: 0 };
        let two: Fx = Fx { raw: 33554432 };
        let three: Fx = Fx { raw: 50331648 };
        let neg_three: Fx = Fx { raw: -50331648 };
        let four: Fx = Fx { raw: 67108864 };
        let six: Fx = Fx { raw: 100663296 };
        let nine: Fx = Fx { raw: 150994944 };
        let twenty_seven: Fx = Fx { raw: 452984832 };
        let pi: Fx = Fx { raw: 52707178 };
        let range_hi: i64 = 16778893;

        let x3: Fx = fx_add(fx_sub(fx_add(fx_neg(p0), fx_mul(three, p1)), fx_mul(three, p2)), p3);
        let x2: Fx = fx_add(fx_sub(fx_mul(three, p0), fx_mul(six, p1)), fx_mul(three, p2));
        let x1: Fx = fx_add(fx_mul(neg_three, p0), fx_mul(three, p1));
        let x0: Fx = fx_sub(p0, x);

        if x3.raw == 0 && x2.raw == 0 {
            // linear: x1 * t + x0 == 0
            if x1.raw == 0 {
                return zero;
            }
            fx_div(fx_neg(x0), x1)
        } else if x3.raw == 0 {
            // quadratic: t^2 + b * t + c == 0
            let b: Fx = fx_div(x1, x2);
            let c: Fx = fx_div(x0, x2);
            if c.raw == 0 {
                return zero;
            }
            let d: Fx = fx_sub(fx_mul(b, b), fx_mul(four, c));
            let s: Fx = fx_sqrt(d);
            let t: Fx = fx_div(fx_add(fx_neg(b), s), two);
            if 0 <= t.raw && t.raw <= range_hi {
                return t;
            }
            fx_div(fx_sub(fx_neg(b), s), two)
        } else {
            // cubic: t^3 + a * t^2 + b * t + c == 0
            let a: Fx = fx_div(x2, x3);
            let b: Fx = fx_div(x1, x3);
            let c: Fx = fx_div(x0, x3);

            // substitute t = y - a / 3 (Cardano)
            let sub: Fx = fx_div(a, three);
            let p: Fx = fx_sub(fx_div(b, three), fx_div(fx_mul(a, a), nine));
            let q: Fx = fx_div(
                fx_add(
                    fx_sub(
                        fx_div(fx_mul(fx_mul(fx_mul(two, a), a), a), twenty_seven),
                        fx_div(fx_mul(a, b), three),
                    ),
                    c,
                ),
                two,
            );
            let qq: Fx = fx_mul(q, q);
            let pc: Fx = fx_mul(fx_mul(p, p), p);
            let d: Fx = fx_add(qq, pc);

            if d.raw > 0 {
                // one real root
                let s: Fx = fx_sqrt(d);
                fx_sub(fx_sub(fx_cbrt(fx_sub(s, q)), fx_cbrt(fx_add(s, q))), sub)
            } else if d.raw == 0 {
                // a double (or triple) root
                let s: Fx = fx_cbrt(fx_neg(q));
                let t: Fx = fx_sub(fx_mul(two, s), sub);
                if 0 <= t.raw && t.raw <= range_hi {
                    return t;
                }
                fx_sub(fx_neg(s), sub)
            } else {
                // casus irreducibilis: three real roots
                proof {
                    lemma_mag_mul(q.raw as int, q.raw as int);
                    assert(qq.raw >= 0);
                    assert(pc.raw < 0);
                }
                let npc: Fx = fx_neg(pc);
                let s0: Fx = fx_sqrt(npc);
                proof {
                    assert(npc.raw >= 1);
                    assert(is_sqrt_floor(npc.raw as int * 16777216, s0.raw as int));
                    if s0.raw == 0 {
                        assert((s0.raw as int + 1) * (s0.raw as int + 1) == 1) by (nonlinear_arith)
                            requires
                                s0.raw as int == 0,
                        ;
                        assert(false);
                    }
                }
                let phi: Fx = fx_div(fx_acos(fx_div(fx_neg(q), s0)), three);
                let s: Fx = fx_mul(two, fx_sqrt(fx_neg(p)));

                let t1: Fx = fx_sub(fx_mul(s, fx_cos(phi)), sub);
                if 0 <= t1.raw && t1.raw <= range_hi {
                    return t1;
                }
                let t2: Fx = fx_sub(fx_mul(fx_neg(s), fx_cos(fx_add(phi, fx_div(pi, three)))), sub);
                if 0 <= t2.raw && t2.raw <= range_hi {
                    return t2;
                }
                fx_sub(fx_mul(fx_neg(s), fx_cos(fx_sub(phi, fx_div(pi, three)))), sub)
            }
        }
    }

    /// Evaluate a cubic Bezier at `amount` by De Casteljau's algorithm.
    pub fn bezier(p0: Fx, p1: Fx, p2: Fx, p3: Fx, amount: Fx) -> (r: Fx)
        ensures
            r.raw as int == bezier_v(
                p0.raw as int,
                p1.raw as int,
                p2.raw as int,
                p3.raw as int,
                amount.raw as int,
            ),
    {
        let c10: Fx = mix(p0, p1, amount);
        let c11: Fx = mix(p1, p2, amount);
        let c12: Fx = mix(p2, p3, amount);

        let c20: Fx = mix(c10, c11, amount);
        let c21: Fx = mix(c11, c12, amount);

        mix(c20, c21, amount)
    }

    /// Evaluate a keyframe track at a query time.
    ///
    /// An empty track yields zero on every channel; a single-point track
    /// yields that point's value verbatim.  Otherwise the query is folded
    /// into the track's time range, the bracketing control points are
    /// located, and each channel is blended according to the segment's
    /// interpolation kind.  The result is exactly [`eval_anim_v`].
    #[verifier::rlimit(100)]
    pub fn render_eval_anim(points: &Vec<AnimPoint>, time_nanos_param: i128, channels: usize) -> (res:
        Vec<Fx>)
        requires
            points_wf(points@, channels as int),
        ensures
            res@ == eval_anim_v(points@, time_nanos_param as int, channels as int),
            points@.len() == 0 ==> res@.len() == channels && (forall|c: int|
                0 <= c < channels ==> res@[c].raw == 0),
            points@.len() == 1 ==> res@ == points@[0].value@,
    {
        let len: usize = points.len();
        if len == 0 {
            let mut res: Vec<Fx> = Vec::new();
            let mut c: usize = 0;
            while c < channels
                invariant
                    c <= channels,
                    res@.len() == c,
                    forall|i: int| 0 <= i < c ==> res@[i] == (Fx { raw: 0i64 }),
                decreases channels - c,
            {
                res.push(Fx { raw: 0 });
                c += 1;
            }
            proof {
                assert(res@ =~= eval_anim_v(points@, time_nanos_param as int, channels as int));
            }
            return res;
        }
        if len == 1 {
            let src: &Vec<Fx> = &points[0].value;
            let mut res: Vec<Fx> = Vec::new();
            let mut c: usize = 0;
            while c < src.len()
                invariant
                    c <= src@.len(),
                    res@.len() == c,
                    points@.len() >= 1,
                    src@ == points@[0].value@,
                    forall|i: int| 0 <= i < c ==> res@[i] == src@[i],
                decreases src@.len() - c,
            {
                res.push(src[c]);
                c += 1;
            }
            proof {
                assert(res@ =~= eval_anim_v(points@, time_nanos_param as int, channels as int));
            }
            return res;
        }

        let ghost gpoints = points@;
        let n: u64 = normalize_time(points, time_nanos_param);
        let i0: usize = partition_idx(points, n);
        proof {
            lemma_first_gt_props(gpoints, n as int, 0);
            if i0 == 0 {
                assert(gpoints[0].time > n);
                assert(false);
            }
        }
        let ip: usize = i0 - 1;
        let inx: usize = if i0 > len - 1 { len - 1 } else { i0 };
        proof {
            assert(ip as int == seg_prev_idx(gpoints, n as int));
            assert(inx as int == seg_next_idx(gpoints, n as int));
            assert(gpoints[ip as int].time <= n);
            assert(gpoints[ip as int].time <= gpoints[inx as int].time);
            if (i0 as int) < gpoints.len() {
                assert(gpoints[i0 as int].time > n);
            } else {
                assert(n <= gpoints[inx as int].time);
            }
        }
        let t1: u64 = points[ip].time;
        let t2: u64 = points[inx].time;
        let a: Fx = blend_factor(n, t1, t2);

        let point1: &AnimPoint = &points[ip];
        let point2: &AnimPoint = &points[inx];
        let ghost gn = n as int;

        match &point1.curve_type {
            AnimPointCurveType::Bezier(beziers) => {
                let mut res: Vec<Fx> = Vec::new();
                let mut c: usize = 0;
                while c < channels
                    invariant
                        c <= channels,
                        res@.len() == c,
                        points_wf(gpoints, channels as int),
                        2 <= gpoints.len(),
                        ip < gpoints.len(),
                        inx < gpoints.len(),
                        point1 == gpoints[ip as int],
                        point2 == gpoints[inx as int],
                        gn == n as int,
                        gpoints[ip as int].curve_type == AnimPointCurveType::Bezier(*beziers),
                        gpoints[ip as int].time <= gpoints[inx as int].time,
                        forall|i: int|
                            0 <= i < c ==> res@[i] == bezier_channel_v(
                                gpoints[ip as int],
                                gpoints[inx as int],
                                *beziers,
                                gn,
                                i,
                            ),
                    decreases channels - c,
                {
                    // monotonic 2-D cubic Bezier curve in (ms, value)
                    let p0x: Fx = fx_ms_of_ns_u(point1.time);
                    let p3x: Fx = fx_ms_of_ns_u(point2.time);
                    let p0y: Fx = point1.value[c];
                    let p3y: Fx = point2.value[c];

                    let otx: Fx = fx_ms_of_ns_i(beziers.value[c].out_tangent.x, false);
                    let oty: Fx = beziers.value[c].out_tangent.y;
                    let itx: Fx = fx_ms_of_ns_i(beziers.value[c].in_tangent.x, true);
                    let ity: Fx = beziers.value[c].in_tangent.y;

                    proof {
                        lemma_ms_u_monotone(point1.time as int, point2.time as int);
                    }
                    // validate the curve: time must stay monotonic
                    let p1x: Fx = fx_clamp(fx_add(p0x, otx), p0x, p3x);
                    let p1y: Fx = fx_add(p0y, oty);
                    let p2x: Fx = fx_clamp(fx_add(p3x, itx), p0x, p3x);
                    let p2y: Fx = fx_add(p3y, ity);

                    // solve x(t) == time for t
                    let xt: Fx = fx_ms_of_ns_u(n);
                    let t0: Fx = RenderTools::solve_bezier(xt, p0x, p1x, p2x, p3x);
                    let t: Fx = fx_clamp(t0, Fx { raw: 0 }, Fx { raw: 16777216 });

                    // value = y(t)
                    let val: Fx = RenderTools::bezier(p0y, p1y, p2y, p3y, t);
                    proof {
                        let prevs = gpoints[ip as int];
                        let nexts = gpoints[inx as int];
                        let bz = *beziers;
                        let sp0x = ms_u_v(prevs.time as int);
                        let sp3x = ms_u_v(nexts.time as int);
                        let sp0y = prevs.value@[c as int].raw as int;
                        let sp3y = nexts.value@[c as int].raw as int;
                        let sotx = ms_i_v(bz.value@[c as int].out_tangent.x as int);
                        let soty = bz.value@[c as int].out_tangent.y.raw as int;
                        let sitx = ms_i_v(-(bz.value@[c as int].in_tangent.x as int));
                        let sity = bz.value@[c as int].in_tangent.y.raw as int;
                        assert(p0x.raw as int == sp0x);
                        assert(p3x.raw as int == sp3x);
                        assert(p0y.raw as int == sp0y);
                        assert(p3y.raw as int == sp3y);
                        assert(otx.raw as int == sotx);
                        assert(itx.raw as int == sitx);
                        let sp1x = clamp_v(fx_add_v(sp0x, sotx), sp0x, sp3x);
                        let sp1y = fx_add_v(sp0y, soty);
                        let sp2x = clamp_v(fx_add_v(sp3x, sitx), sp0x, sp3x);
                        let sp2y = fx_add_v(sp3y, sity);
                        assert(p1x.raw as int == sp1x);
                        assert(p1y.raw as int == sp1y);
                        assert(p2x.raw as int == sp2x);
                        assert(p2y.raw as int == sp2y);
                        let sxt = ms_u_v(gn);
                        assert(xt.raw as int == sxt);
                        let st = clamp_v(solve_bezier_v(sxt, sp0x, sp1x, sp2x, sp3x), 0, 16777216);
                        assert(t.raw as int == st);
                        assert(val.raw as int == bezier_v(sp0y, sp1y, sp2y, sp3y, st));
                        assert(val == bezier_channel_v(prevs, nexts, bz, gn, c as int));
                    }
                    res.push(val);
                    c += 1;
                }
                proof {
                    assert(res@ =~= eval_at_v(gpoints, gn, channels as int));
                    assert(res@ =~= eval_anim_v(gpoints, time_nanos_param as int, channels as int));
                }
                res
            },
            _ => {
                let s: Fx = shape_blend(&point1.curve_type, a);
                let mut res: Vec<Fx> = Vec::new();
                let mut c: usize = 0;
                while c < channels
                    invariant
                        c <= channels,
                        res@.len() == c,
                        points_wf(gpoints, channels as int),
                        2 <= gpoints.len(),
                        ip < gpoints.len(),
                        inx < gpoints.len(),
                        point1 == gpoints[ip as int],
                        point2 == gpoints[inx as int],
                        gn == n as int,
                        s.raw as int == shape_v(
                            gpoints[ip as int].curve_type,
                            blend_v(gn, gpoints[ip as int].time as int, gpoints[inx as int].time as int),
                        ),
                        forall|i: int|
                            0 <= i < c ==> res@[i] == (Fx {
                                raw: mix_v(
                                    gpoints[ip as int].value@[i].raw as int,
                                    gpoints[inx as int].value@[i].raw as int,
                                    s.raw as int,
                                ) as i64,
                            }),
                    decreases channels - c,
                {
                    let v0: Fx = point1.value[c];
                    let v1: Fx = point2.value[c];
                    res.push(mix(v0, v1, s));
                    c += 1;
                }
                proof {
                    assert(!(gpoints[ip as int].curve_type is Bezier));
                    assert(res@ =~= eval_at_v(gpoints, gn, channels as int));
                    assert(res@ =~= eval_anim_v(gpoints, time_nanos_param as int, channels as int));
                }
                res
            },
        }
    }
}

} // verus!
