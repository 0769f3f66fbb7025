use anim_eval::fx::Fx;
use anim_eval::roots::{fx_acos, fx_cbrt, fx_cos, fx_sqrt, FX_PI_RAW};

const ONE: i64 = 16777216;

fn fx(i: i64) -> Fx {
    Fx { raw: i * ONE }
}

#[test]
fn sqrt_exact_squares() {
    assert_eq!(fx_sqrt(fx(4)).raw, 2 * ONE);
    assert_eq!(fx_sqrt(fx(9)).raw, 3 * ONE);
    assert_eq!(fx_sqrt(fx(0)).raw, 0);
}

#[test]
fn sqrt_of_two_floor() {
    // floor(sqrt(2) * 2^24) == 23726566
    assert_eq!(fx_sqrt(fx(2)).raw, 23726566);
}

#[test]
fn sqrt_of_negative_is_zero() {
    assert_eq!(fx_sqrt(fx(-4)).raw, 0);
}

#[test]
fn cbrt_exact_cubes_and_symmetry() {
    assert_eq!(fx_cbrt(fx(8)).raw, 2 * ONE);
    assert_eq!(fx_cbrt(fx(-8)).raw, -2 * ONE);
    assert_eq!(fx_cbrt(fx(0)).raw, 0);
    // cbrt(0.125) == 0.5 exactly
    assert_eq!(fx_cbrt(Fx { raw: ONE / 8 }).raw, ONE / 2);
}

#[test]
fn cos_at_zero_is_one() {
    assert_eq!(fx_cos(Fx { raw: 0 }).raw, ONE);
}

#[test]
fn cos_near_known_values() {
    // cos(pi) == -1, cos(pi/2) == 0, cos(pi/3) == 0.5
    let c = fx_cos(Fx { raw: FX_PI_RAW });
    assert!((c.raw + ONE).abs() <= 64, "cos(pi) = {}", c.raw);
    let c = fx_cos(Fx { raw: FX_PI_RAW / 2 });
    assert!(c.raw.abs() <= 64, "cos(pi/2) = {}", c.raw);
    let c = fx_cos(Fx { raw: FX_PI_RAW / 3 });
    assert!((c.raw - ONE / 2).abs() <= 64, "cos(pi/3) = {}", c.raw);
}

#[test]
fn acos_boundaries() {
    // the cosine is flat at the interval ends, so the inversion is exact
    // only up to about sqrt(2^-24) of a radian there
    let r = fx_acos(fx(1));
    assert!(r.raw.abs() <= 8192, "acos(1) = {}", r.raw);
    let r = fx_acos(fx(-1));
    assert!((r.raw - FX_PI_RAW).abs() <= 16384, "acos(-1) = {}", r.raw);
    let r = fx_acos(Fx { raw: 0 });
    assert!((r.raw - FX_PI_RAW / 2).abs() <= 64, "acos(0) = {}", r.raw);
}

#[test]
fn acos_clamps_out_of_range_input() {
    // arguments beyond [-1, 1] are clamped, not rejected
    assert_eq!(fx_acos(fx(5)).raw, fx_acos(fx(1)).raw);
    assert_eq!(fx_acos(fx(-5)).raw, fx_acos(fx(-1)).raw);
}

#[test]
fn acos_round_trip_through_cos() {
    // acos(cos(x)) recovers x within tolerance on [0, pi]
    for k in 1..8 {
        let x = FX_PI_RAW * k / 8;
        let c = fx_cos(Fx { raw: x });
        let r = fx_acos(c);
        assert!((r.raw - x).abs() <= 1024, "round trip at {} gave {}", x, r.raw);
    }
}
