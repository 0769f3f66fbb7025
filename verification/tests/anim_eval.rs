use anim_eval::anim::{
    AnimBezierHandle, AnimBezierPoint, AnimBeziers, AnimPoint, AnimPointCurveType,
};
use anim_eval::anim::shape_blend;
use anim_eval::fx::Fx;
use anim_eval::render_tools::RenderTools;

const ONE: i64 = 16777216;
const MS: u64 = 1_000_000;

fn fx(i: i64) -> Fx {
    Fx { raw: i * ONE }
}

fn point(time_ms: u64, v: i64, curve: AnimPointCurveType) -> AnimPoint {
    AnimPoint { time: time_ms * MS, value: vec![fx(v)], curve_type: curve }
}

fn eval1(points: &Vec<AnimPoint>, q_ms: i128) -> i64 {
    let res = RenderTools::render_eval_anim(points, q_ms * MS as i128, 1);
    assert_eq!(res.len(), 1);
    res[0].raw
}

#[test]
fn empty_track_yields_zero() {
    let points: Vec<AnimPoint> = Vec::new();
    let res = RenderTools::render_eval_anim(&points, 123456789, 3);
    assert_eq!(res.len(), 3);
    assert!(res.iter().all(|v| v.raw == 0));
}

#[test]
fn single_point_track_yields_its_value() {
    let points = vec![point(700, 7, AnimPointCurveType::Linear)];
    for q in [0i128, 700, -12345, 1_000_000_000_000, -999_999_999_999] {
        assert_eq!(eval1(&points, q), 7 * ONE);
    }
}

#[test]
fn linear_concrete_scenario() {
    // track [(0ms, 0.0, Linear), (1000ms, 10.0, Linear)]
    let points = vec![
        point(0, 0, AnimPointCurveType::Linear),
        point(1000, 10, AnimPointCurveType::Linear),
    ];
    // query 500ms -> 5.0 exactly
    assert_eq!(eval1(&points, 500), 5 * ONE);
    // query 1500ms loops (span 1000ms) to 500ms -> 5.0
    assert_eq!(eval1(&points, 1500), 5 * ONE);
}

#[test]
fn linear_midpoint_and_start_exact() {
    let points = vec![
        point(0, 2, AnimPointCurveType::Linear),
        point(1000, 4, AnimPointCurveType::Linear),
    ];
    assert_eq!(eval1(&points, 500), 3 * ONE);
    // exactly at the first point's time the first value comes back exactly
    assert_eq!(eval1(&points, 0), 2 * ONE);
    // exactly at the last point's time the query aliases to the track
    // start (looping), so the first value comes back, not the last
    assert_eq!(eval1(&points, 1000), 2 * ONE);
}

#[test]
fn negative_queries_loop_symmetrically() {
    let points = vec![
        point(0, 0, AnimPointCurveType::Linear),
        point(1000, 10, AnimPointCurveType::Linear),
    ];
    assert_eq!(eval1(&points, -500), eval1(&points, 500));
    assert_eq!(eval1(&points, -1500), eval1(&points, 500));
}

#[test]
fn looping_idempotence() {
    let points = vec![
        point(200, 1, AnimPointCurveType::Linear),
        point(1200, 9, AnimPointCurveType::Linear),
    ];
    let at_last = eval1(&points, 1200);
    for k in 0..6i128 {
        assert_eq!(eval1(&points, 1200 + k * 1000), at_last);
    }
}

#[test]
fn step_segment_holds_prev_value() {
    let points = vec![
        point(0, 1, AnimPointCurveType::Step),
        point(1000, 9, AnimPointCurveType::Linear),
    ];
    assert_eq!(eval1(&points, 0), ONE);
    assert_eq!(eval1(&points, 1), ONE);
    assert_eq!(eval1(&points, 500), ONE);
    assert_eq!(eval1(&points, 999), ONE);
}

#[test]
fn step_next_segment_takes_over() {
    let points = vec![
        point(0, 1, AnimPointCurveType::Step),
        point(1000, 9, AnimPointCurveType::Step),
        point(2000, 5, AnimPointCurveType::Step),
    ];
    assert_eq!(eval1(&points, 999), ONE);
    // at and after the next point's time that segment takes over
    assert_eq!(eval1(&points, 1000), 9 * ONE);
    assert_eq!(eval1(&points, 1999), 9 * ONE);
}

#[test]
fn slow_fast_smooth_values() {
    // over [0, 1000]ms from 0 to 8, query at 500ms: a == 0.5
    let mk = |c: AnimPointCurveType| {
        vec![point(0, 0, c), point(1000, 8, AnimPointCurveType::Linear)]
    };
    // slow: a^3 == 0.125 -> 1.0
    assert_eq!(eval1(&mk(AnimPointCurveType::Slow), 500), ONE);
    // fast: 1 - (1-a)^3 == 0.875 -> 7.0
    assert_eq!(eval1(&mk(AnimPointCurveType::Fast), 500), 7 * ONE);
    // smooth: -2 a^3 + 3 a^2 == 0.5 -> 4.0
    assert_eq!(eval1(&mk(AnimPointCurveType::Smooth), 500), 4 * ONE);
    // all kinds are exact at the segment start
    assert_eq!(eval1(&mk(AnimPointCurveType::Slow), 0), 0);
    assert_eq!(eval1(&mk(AnimPointCurveType::Fast), 0), 0);
    assert_eq!(eval1(&mk(AnimPointCurveType::Smooth), 0), 0);
}

fn zero_tangents() -> AnimPointCurveType {
    AnimPointCurveType::Bezier(AnimBeziers {
        value: vec![AnimBezierPoint {
            out_tangent: AnimBezierHandle { x: 0, y: Fx { raw: 0 } },
            in_tangent: AnimBezierHandle { x: 0, y: Fx { raw: 0 } },
        }],
    })
}

#[test]
fn bezier_segment_start_exact() {
    // interior Bezier segment: querying exactly at its first point's time
    // returns that point's value exactly
    let points = vec![
        point(0, 5, AnimPointCurveType::Linear),
        point(1000, 2, zero_tangents()),
        point(2000, 8, AnimPointCurveType::Linear),
    ];
    assert_eq!(eval1(&points, 1000), 2 * ONE);
}

#[test]
fn bezier_segment_near_end() {
    let points = vec![
        point(0, 5, AnimPointCurveType::Linear),
        point(1000, 2, zero_tangents()),
        point(2000, 8, AnimPointCurveType::Linear),
    ];
    let r = eval1(&points, 1999);
    assert!((r - 8 * ONE).abs() <= ONE / 10, "value near end: {}", r);
}

#[test]
fn bezier_symmetric_tangents_midpoint() {
    // symmetric time tangents, flat value tangents: the value midpoint
    // appears at the time midpoint
    let curve = AnimPointCurveType::Bezier(AnimBeziers {
        value: vec![AnimBezierPoint {
            out_tangent: AnimBezierHandle { x: 250 * MS as i64, y: Fx { raw: 0 } },
            // stored pointing backwards: negated before being added
            in_tangent: AnimBezierHandle { x: 250 * MS as i64, y: Fx { raw: 0 } },
        }],
    });
    let points = vec![
        point(1000, 2, curve),
        point(2000, 8, AnimPointCurveType::Linear),
    ];
    // n == 1500ms (span 1000ms starting at 1000ms: |1500| mod 1000 + 1000)
    let r = eval1(&points, 1500);
    assert!((r - 5 * ONE).abs() <= ONE / 100, "midpoint value: {}", r);
}

#[test]
fn bezier_multi_channel() {
    let curve = AnimPointCurveType::Bezier(AnimBeziers {
        value: vec![
            AnimBezierPoint {
                out_tangent: AnimBezierHandle { x: 0, y: Fx { raw: 0 } },
                in_tangent: AnimBezierHandle { x: 0, y: Fx { raw: 0 } },
            },
            AnimBezierPoint {
                out_tangent: AnimBezierHandle { x: 0, y: Fx { raw: 0 } },
                in_tangent: AnimBezierHandle { x: 0, y: Fx { raw: 0 } },
            },
        ],
    });
    let points = vec![
        AnimPoint { time: 0, value: vec![fx(1), fx(10)], curve_type: curve },
        AnimPoint {
            time: 1000 * MS,
            value: vec![fx(3), fx(20)],
            curve_type: AnimPointCurveType::Linear,
        },
    ];
    let res = RenderTools::render_eval_anim(&points, 0, 2);
    assert_eq!(res.len(), 2);
    assert_eq!(res[0].raw, ONE);
    assert_eq!(res[1].raw, 10 * ONE);
}

#[test]
fn stacked_points_pin_to_that_instant() {
    // first.time == last.time != 0: all content lies at that instant
    let points = vec![
        point(1000, 1, AnimPointCurveType::Linear),
        point(1000, 9, AnimPointCurveType::Linear),
    ];
    assert_eq!(eval1(&points, 0), 9 * ONE);
    assert_eq!(eval1(&points, 12345), 9 * ONE);
}

#[test]
fn all_points_at_origin() {
    // last.time == 0: normalization pins the query to zero
    let points = vec![
        point(0, 3, AnimPointCurveType::Linear),
        point(0, 4, AnimPointCurveType::Linear),
    ];
    assert_eq!(eval1(&points, 999), 4 * ONE);
}

#[test]
fn channel_count_limits_output() {
    let points = vec![
        AnimPoint {
            time: 0,
            value: vec![fx(1), fx(2), fx(3)],
            curve_type: AnimPointCurveType::Linear,
        },
        AnimPoint {
            time: 1000 * MS,
            value: vec![fx(5), fx(6), fx(7)],
            curve_type: AnimPointCurveType::Linear,
        },
    ];
    let res = RenderTools::render_eval_anim(&points, 500 * MS as i128, 2);
    assert_eq!(res.len(), 2);
    assert_eq!(res[0].raw, 3 * ONE);
    assert_eq!(res[1].raw, 4 * ONE);
}

#[test]
fn smooth_blend_boundary_concrete() {
    let one = Fx { raw: ONE };
    let zero = Fx { raw: 0 };
    // the Smooth (Hermite) blend is exactly 0 at a == 0 and exactly 1 at a == 1
    assert_eq!(shape_blend(&AnimPointCurveType::Smooth, zero).raw, 0);
    assert_eq!(shape_blend(&AnimPointCurveType::Smooth, one).raw, ONE);
    // the other shapes also fix both ends
    assert_eq!(shape_blend(&AnimPointCurveType::Slow, one).raw, ONE);
    assert_eq!(shape_blend(&AnimPointCurveType::Fast, one).raw, ONE);
    assert_eq!(shape_blend(&AnimPointCurveType::Linear, one).raw, ONE);
    assert_eq!(shape_blend(&AnimPointCurveType::Step, one).raw, 0);
}

#[test]
fn extreme_query_times() {
    let points = vec![
        point(0, 0, AnimPointCurveType::Linear),
        point(1000, 10, AnimPointCurveType::Linear),
    ];
    // the most negative query has no i128 negation; it must still loop
    let res = RenderTools::render_eval_anim(&points, i128::MIN, 1);
    assert_eq!(res.len(), 1);
    // |i128::MIN| mod 10^9 == 2^127 mod 10^9 == 170141183460469231731687303715884105728 mod 10^9
    // == 884105728 ns, and 0.884105728 of the way from 0 to 10 stays in range
    assert!(res[0].raw >= 0 && res[0].raw <= 10 * ONE);
    let res = RenderTools::render_eval_anim(&points, i128::MAX, 1);
    assert!(res[0].raw >= 0 && res[0].raw <= 10 * ONE);
}

#[test]
fn huge_point_times() {
    // a track whose last point sits near the end of the u64 range
    let points = vec![
        AnimPoint { time: 0, value: vec![fx(1)], curve_type: AnimPointCurveType::Linear },
        AnimPoint {
            time: u64::MAX,
            value: vec![fx(3)],
            curve_type: AnimPointCurveType::Linear,
        },
    ];
    let res = RenderTools::render_eval_anim(&points, 0, 1);
    assert_eq!(res[0].raw, ONE);
    let res = RenderTools::render_eval_anim(&points, (u64::MAX / 2) as i128 + 1, 1);
    assert!(res[0].raw >= ONE && res[0].raw <= 3 * ONE);
}
