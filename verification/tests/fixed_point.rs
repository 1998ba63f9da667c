//! Exact and tolerance checks on the fixed-point scalar layer.
use mve::fixed::{Fx, FX_ONE, FX_SAT, FX_SAT_NEG};
use mve::trig::{sin_cos, wrap_angle, PI_RAW};

const SCALE: f64 = 4294967296.0;

fn to_f64(x: Fx) -> f64 {
    x.raw as f64 / SCALE
}

fn from_f64(v: f64) -> Fx {
    Fx { raw: (v * SCALE).round() as i64 }
}

#[test]
fn add_exact() {
    let a = Fx::from_int(3);
    let b = Fx::from_int(4);
    assert_eq!(a.add(b).raw, 7 * FX_ONE);
}

#[test]
fn add_saturates() {
    let a = Fx { raw: FX_SAT };
    assert_eq!(a.add(a).raw, FX_SAT);
    let b = Fx { raw: FX_SAT_NEG };
    assert_eq!(b.add(b).raw, FX_SAT_NEG);
}

#[test]
fn sub_and_neg_exact() {
    let a = Fx::from_int(3);
    let b = Fx::from_int(5);
    assert_eq!(a.sub(b).raw, -2 * FX_ONE);
    assert_eq!(b.neg().raw, -5 * FX_ONE);
    assert_eq!(Fx { raw: i64::MIN }.neg().raw, FX_SAT);
}

#[test]
fn mul_exact_halves() {
    let half = Fx { raw: FX_ONE / 2 };
    assert_eq!(half.mul(half).raw, FX_ONE / 4);
    let m3 = Fx::from_int(-3);
    assert_eq!(m3.mul(Fx::from_int(2)).raw, -6 * FX_ONE);
    assert_eq!(m3.mul(Fx::from_int(-2)).raw, 6 * FX_ONE);
}

#[test]
fn mul_rounds_toward_zero() {
    // (1/2^32) * (1/2^32) underflows to zero from both sides
    let eps = Fx { raw: 1 };
    assert_eq!(eps.mul(eps).raw, 0);
    assert_eq!(eps.neg().mul(eps).raw, 0);
}

#[test]
fn div_exact() {
    let one = Fx::from_int(1);
    let three = Fx::from_int(3);
    let q = one.div(three);
    assert!((to_f64(q) - 1.0 / 3.0).abs() < 1e-9);
    assert_eq!(Fx::from_int(-6).div(Fx::from_int(2)).raw, -3 * FX_ONE);
}

#[test]
fn div_by_zero_is_zero() {
    assert_eq!(Fx::from_int(7).div(Fx { raw: 0 }).raw, 0);
}

#[test]
fn divi_rounds_toward_zero() {
    assert_eq!(Fx { raw: -7 }.divi(2).raw, -3);
    assert_eq!(Fx { raw: 7 }.divi(2).raw, 3);
}

#[test]
fn sqrt_exact_and_close() {
    assert_eq!(Fx::from_int(4).sqrt().raw, 2 * FX_ONE);
    assert_eq!(Fx::from_int(0).sqrt().raw, 0);
    assert_eq!(Fx::from_int(-9).sqrt().raw, 0);
    let two = Fx::from_int(2);
    assert!((to_f64(two.sqrt()) - std::f64::consts::SQRT_2).abs() < 1e-9);
}

#[test]
fn from_ratio_matches_division() {
    let a = Fx::from_ratio(1920, 1080);
    assert_eq!(a.raw, 7635497415);
    assert_eq!(a.raw, Fx::from_int(1920).div(Fx::from_int(1080)).raw);
}

#[test]
fn wrap_angle_stays_in_pi_range() {
    let big = from_f64(123.456);
    let w = wrap_angle(big);
    assert!(-PI_RAW <= w.raw && w.raw <= PI_RAW);
    let expected = {
        let m = 123.456_f64.rem_euclid(2.0 * std::f64::consts::PI);
        if m > std::f64::consts::PI { m - 2.0 * std::f64::consts::PI } else { m }
    };
    assert!((to_f64(w) - expected).abs() < 1e-6);
}

#[test]
fn sin_cos_matches_reference() {
    let angles = [
        0.0, 0.5, 1.0, -0.5, 1.5707963, 3.0, -3.0, 2.35619449, -2.35619449, 6.0, -6.0, 12.0,
        -100.0,
    ];
    for &a in angles.iter() {
        let (s, c) = sin_cos(from_f64(a));
        assert!((to_f64(s) - a.sin()).abs() < 1e-5, "sin({a})");
        assert!((to_f64(c) - a.cos()).abs() < 1e-5, "cos({a})");
    }
}

#[test]
fn sin_cos_special_values() {
    let (s, c) = sin_cos(Fx { raw: 0 });
    assert_eq!(s.raw, 0);
    assert_eq!(c.raw, FX_ONE);
    let (s, c) = sin_cos(Fx { raw: PI_RAW });
    assert!(to_f64(s).abs() < 1e-6);
    assert!((to_f64(c) + 1.0).abs() < 1e-6);
}
