//! Fixed-point sine and cosine.
//!
//! Angles are in radians. An input is first wrapped into `(-pi, pi]`, folded
//! onto `[0, pi/4]` by the usual quadrant symmetries, and evaluated there by
//! a truncated Taylor polynomial. Every step is mirrored by a spec function,
//! so `sin_cos` has an exact contract.
use crate::fixed::{
    fadd, fdivi, fmul, fneg, fsub, mag, sat64, Fx, FX_ONE,
};
use vstd::prelude::*;

verus! {

/// Raw value of pi.
pub const PI_RAW: i64 = 13493037705;

/// Raw value of two pi.
pub const TWO_PI_RAW: i64 = 26986075409;

/// Raw value of pi over two.
pub const HALF_PI_RAW: i64 = 6746518852;

/// Raw value of pi over four.
pub const PI_4_RAW: i64 = 3373259426;

/// Raw value of three pi over four.
pub const THREE_PI_4_RAW: i64 = 10119778278;

/// Wrap a raw angle into `(-pi, pi]` raw, preserving its sign symmetry.
pub open spec fn swrap64(x: i64) -> i64 {
    let m = mag(x as int) % (TWO_PI_RAW as int);
    let a = if m > PI_RAW as int {
        -((TWO_PI_RAW as int) - m)
    } else {
        m
    };
    if x < 0 {
        sat64(-a)
    } else {
        sat64(a)
    }
}

/// Taylor polynomial for sine on the folded range.
pub open spec fn spsin(r: Fx) -> Fx {
    let r2 = fmul(r, r);
    let r3 = fmul(r2, r);
    let r5 = fmul(r3, r2);
    let r7 = fmul(r5, r2);
    let r9 = fmul(r7, r2);
    fadd(fsub(fadd(fsub(r, fdivi(r3, 6)), fdivi(r5, 120)), fdivi(r7, 5040)), fdivi(r9, 362880))
}

/// Taylor polynomial for cosine on the folded range.
pub open spec fn spcos(r: Fx) -> Fx {
    let r2 = fmul(r, r);
    let r4 = fmul(r2, r2);
    let r6 = fmul(r4, r2);
    let r8 = fmul(r6, r2);
    fadd(
        fsub(fadd(fsub(Fx { raw: FX_ONE }, fdivi(r2, 2)), fdivi(r4, 24)), fdivi(r6, 720)),
        fdivi(r8, 40320),
    )
}

/// Sine of a wrapped, nonnegative raw angle in `[0, pi]`.
pub open spec fn sin_abs(a: Fx) -> Fx {
    if a.raw <= PI_4_RAW {
        spsin(a)
    } else if a.raw <= THREE_PI_4_RAW {
        spcos(fsub(a, Fx { raw: HALF_PI_RAW }))
    } else {
        spsin(fsub(Fx { raw: PI_RAW }, a))
    }
}

/// Cosine of a wrapped, nonnegative raw angle in `[0, pi]`.
pub open spec fn cos_abs(a: Fx) -> Fx {
    if a.raw <= PI_4_RAW {
        spcos(a)
    } else if a.raw <= THREE_PI_4_RAW {
        fneg(spsin(fsub(a, Fx { raw: HALF_PI_RAW })))
    } else {
        fneg(spcos(fsub(Fx { raw: PI_RAW }, a)))
    }
}

/// Sine of an angle in radians.
pub open spec fn fsin(x: Fx) -> Fx {
    let w = swrap64(x.raw);
    let s = sin_abs(Fx { raw: mag(w as int) as i64 });
    if w < 0 {
        fneg(s)
    } else {
        s
    }
}

/// Cosine of an angle in radians.
pub open spec fn fcos(x: Fx) -> Fx {
    cos_abs(Fx { raw: mag(swrap64(x.raw) as int) as i64 })
}

/// Wrap an angle into `(-pi, pi]`.
pub fn wrap_angle(x: Fx) -> (r: Fx)
    ensures
        r.raw == swrap64(x.raw),
        -PI_RAW <= r.raw <= PI_RAW,
{
    let m: u64 = raw_mag(x.raw);
    let w: u64 = m % (TWO_PI_RAW as u64);
    let a: i64 = if w > PI_RAW as u64 {
        -(((TWO_PI_RAW as u64) - w) as i64)
    } else {
        w as i64
    };
    if x.raw < 0 {
        Fx { raw: -a }
    } else {
        Fx { raw: a }
    }
}

/// Magnitude of a raw value, as an unsigned integer.
fn raw_mag(a: i64) -> (m: u64)
    ensures
        m as int == mag(a as int),
{
    if a >= 0 {
        a as u64
    } else {
        (-(a as i128)) as u64
    }
}

/// Taylor polynomial for sine, executable form.
fn poly_sin(r: Fx) -> (s: Fx)
    ensures
        s == spsin(r),
{
    let r2 = r.mul(r);
    let r3 = r2.mul(r);
    let r5 = r3.mul(r2);
    let r7 = r5.mul(r2);
    let r9 = r7.mul(r2);
    r.sub(r3.divi(6)).add(r5.divi(120)).sub(r7.divi(5040)).add(r9.divi(362880))
}

/// Taylor polynomial for cosine, executable form.
fn poly_cos(r: Fx) -> (c: Fx)
    ensures
        c == spcos(r),
{
    let r2 = r.mul(r);
    let r4 = r2.mul(r2);
    let r6 = r4.mul(r2);
    let r8 = r6.mul(r2);
    let one = Fx { raw: FX_ONE };
    one.sub(r2.divi(2)).add(r4.divi(24)).sub(r6.divi(720)).add(r8.divi(40320))
}

/// Sine and cosine of an angle in radians, as a pair.
pub fn sin_cos(x: Fx) -> (r: (Fx, Fx))
    ensures
        r.0 == fsin(x),
        r.1 == fcos(x),
{
    let w = wrap_angle(x);
    let negative: bool = w.raw < 0;
    let a = Fx { raw: raw_mag(w.raw) as i64 };
    let (s, c) = if a.raw <= PI_4_RAW {
        (poly_sin(a), poly_cos(a))
    } else if a.raw <= THREE_PI_4_RAW {
        let r = a.sub(Fx { raw: HALF_PI_RAW });
        (poly_cos(r), poly_sin(r).neg())
    } else {
        let r = Fx { raw: PI_RAW }.sub(a);
        (poly_sin(r), poly_cos(r).neg())
    };
    if negative {
        (s.neg(), c)
    } else {
        (s, c)
    }
}

} // verus!
