use anim_eval::fx::{fx_add, fx_clamp, fx_div, fx_divi, fx_mul, fx_neg, fx_sub, mix, Fx};

const ONE: i64 = 16777216;

fn fx(i: i64) -> Fx {
    Fx { raw: i * ONE }
}

#[test]
fn mul_exact_on_halves() {
    // 1.5 * 1.5 == 2.25 exactly
    let a = Fx { raw: ONE + ONE / 2 };
    let r = fx_mul(a, a);
    assert_eq!(r.raw, 2 * ONE + ONE / 4);
}

#[test]
fn mul_truncates_toward_zero() {
    // (-3 / 2^24) * 0.5 == -1.5 / 2^24, truncated to -1 (floor would give -2)
    let r = fx_mul(Fx { raw: -3 }, Fx { raw: ONE / 2 });
    assert_eq!(r.raw, -1);
    let r = fx_mul(Fx { raw: 3 }, Fx { raw: ONE / 2 });
    assert_eq!(r.raw, 1);
}

#[test]
fn add_saturates() {
    let r = fx_add(Fx { raw: i64::MAX }, fx(1));
    assert_eq!(r.raw, i64::MAX);
    let r = fx_sub(Fx { raw: i64::MIN }, fx(1));
    assert_eq!(r.raw, i64::MIN);
}

#[test]
fn neg_of_min_saturates() {
    let r = fx_neg(Fx { raw: i64::MIN });
    assert_eq!(r.raw, i64::MAX);
}

#[test]
fn div_one_third() {
    let r = fx_div(fx(1), fx(3));
    assert_eq!(r.raw, ONE / 3);
}

#[test]
fn div_negative_truncates() {
    let r = fx_div(fx(-1), fx(3));
    assert_eq!(r.raw, -(ONE / 3));
}

#[test]
fn divi_by_plain_integer() {
    let r = fx_divi(fx(5), 2);
    assert_eq!(r.raw, 5 * ONE / 2);
    let r = fx_divi(Fx { raw: -5 }, 2);
    assert_eq!(r.raw, -2);
}

#[test]
fn clamp_bounds() {
    assert_eq!(fx_clamp(fx(5), fx(0), fx(1)).raw, ONE);
    assert_eq!(fx_clamp(fx(-5), fx(0), fx(1)).raw, 0);
    assert_eq!(fx_clamp(Fx { raw: 42 }, fx(0), fx(1)).raw, 42);
}

#[test]
fn mix_midpoint_exact() {
    let r = mix(fx(0), fx(10), Fx { raw: ONE / 2 });
    assert_eq!(r.raw, 5 * ONE);
}
