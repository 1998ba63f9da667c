//! Saturating fixed-point scalars.
//!
//! Scene geometry and camera math are carried out on `Fx`, a signed
//! fixed-point scalar with 32 fractional bits: a raw value `r` represents the
//! number `r / 2^32`. Every operation is total: results are saturated into
//! the symmetric raw range `[-FX_SAT, FX_SAT]`, products and quotients round
//! toward zero, and division by zero yields zero. Each executable operation
//! is pinned to a spec-level mirror, so composite computations (matrices,
//! view projections) have exact contracts.
use vstd::prelude::*;

verus! {

/// Raw scale factor: a raw value of `FX_ONE` represents the number one.
pub const FX_ONE: i64 = 4294967296;

/// Largest raw value a scalar may hold.
pub const FX_SAT: i64 = 9223372036854775807;

/// Smallest raw value a scalar may hold; the range is symmetric so that
/// every raw value can be negated without overflow.
pub const FX_SAT_NEG: i64 = -9223372036854775807;

/// Magnitude of an unbounded integer.
pub open spec fn mag(x: int) -> int {
    if x < 0 {
        -x
    } else {
        x
    }
}

/// Saturate an unbounded integer into the raw range.
pub open spec fn sat64(x: int) -> i64 {
    if x > FX_SAT as int {
        FX_SAT
    } else if x < FX_SAT_NEG as int {
        FX_SAT_NEG
    } else {
        x as i64
    }
}

/// Raw saturating addition.
pub open spec fn sadd64(a: i64, b: i64) -> i64 {
    sat64(a as int + b as int)
}

/// Raw saturating subtraction.
pub open spec fn ssub64(a: i64, b: i64) -> i64 {
    sat64(a as int - b as int)
}

/// Raw saturating negation.
pub open spec fn sneg64(a: i64) -> i64 {
    sat64(-(a as int))
}

/// Raw saturating fixed-point product: the exact product is rescaled by
/// 2^32, rounding toward zero.
pub open spec fn smul64(a: i64, b: i64) -> i64 {
    let p = a as int * b as int;
    if p >= 0 {
        sat64(p / (FX_ONE as int))
    } else {
        sat64(-((-p) / (FX_ONE as int)))
    }
}

/// Raw saturating fixed-point quotient, rounding toward zero; division by
/// zero yields zero.
pub open spec fn sdiv64(a: i64, b: i64) -> i64 {
    if b == 0 {
        0
    } else {
        let q = (mag(a as int) * (FX_ONE as int)) / mag(b as int);
        if (a < 0) != (b < 0) {
            sat64(-q)
        } else {
            sat64(q)
        }
    }
}

/// Raw quotient by a positive integer, rounding toward zero.
pub open spec fn sdivi64(a: i64, k: u64) -> i64 {
    let q = mag(a as int) / (k as int);
    if a < 0 {
        sat64(-q)
    } else {
        sat64(q)
    }
}

/// Integer square root, defined by counting up.
pub open spec fn ssqrt_r(n: nat) -> nat
    decreases n,
{
    if n == 0 {
        0
    } else {
        let p = ssqrt_r((n - 1) as nat);
        if (p + 1) * (p + 1) <= n {
            p + 1
        } else {
            p
        }
    }
}

/// Raw square root of a scalar: the square root of `r / 2^32` has raw value
/// `isqrt(r * 2^32)`. Nonpositive inputs yield zero.
pub open spec fn ssqrt64(a: i64) -> i64 {
    if a <= 0 {
        0
    } else {
        ssqrt_r((a as nat) * (FX_ONE as nat)) as i64
    }
}

/// `ssqrt_r(n)` is the integer square root of `n`.
pub proof fn lemma_ssqrt_r(n: nat)
    ensures
        (ssqrt_r(n) as int) * (ssqrt_r(n) as int) <= n as int,
        (n as int) < (ssqrt_r(n) as int + 1) * (ssqrt_r(n) as int + 1),
    decreases n,
{
    if n > 0 {
        lemma_ssqrt_r((n - 1) as nat);
        let p = ssqrt_r((n - 1) as nat) as int;
        if (p + 1) * (p + 1) <= n as int {
            assert(ssqrt_r(n) == p + 1);
            let s = ssqrt_r(n) as int;
            assert((n as int) < (s + 1) * (s + 1)) by (nonlinear_arith)
                requires
                    0 <= p,
                    s == p + 1,
                    (n as int - 1) < (p + 1) * (p + 1),
                    (p + 1) * (p + 1) <= n as int,
            ;
        } else {
            assert(ssqrt_r(n) == p);
            assert(p * p <= n as int - 1);
        }
    } else {
        assert(ssqrt_r(n) == 0);
    }
}

/// Two integer square roots of the same number are equal.
pub proof fn lemma_isqrt_unique(a: int, b: int, n: int)
    requires
        0 <= a,
        0 <= b,
        a * a <= n,
        n < (a + 1) * (a + 1),
        b * b <= n,
        n < (b + 1) * (b + 1),
    ensures
        a == b,
{
    assert(a == b) by (nonlinear_arith)
        requires
            0 <= a,
            0 <= b,
            a * a <= n,
            n < (a + 1) * (a + 1),
            b * b <= n,
            n < (b + 1) * (b + 1),
    ;
}

/// A fixed-point scalar: the represented number is `raw / 2^32`.
#[derive(Clone, Copy, PartialEq, Eq, Structural, Debug)]
pub struct Fx {
    pub raw: i64,
}

/// Saturating sum of two scalars.
pub open spec fn fadd(a: Fx, b: Fx) -> Fx {
    Fx { raw: sadd64(a.raw, b.raw) }
}

/// Saturating difference of two scalars.
pub open spec fn fsub(a: Fx, b: Fx) -> Fx {
    Fx { raw: ssub64(a.raw, b.raw) }
}

/// Saturating negation of a scalar.
pub open spec fn fneg(a: Fx) -> Fx {
    Fx { raw: sneg64(a.raw) }
}

/// Saturating product of two scalars.
pub open spec fn fmul(a: Fx, b: Fx) -> Fx {
    Fx { raw: smul64(a.raw, b.raw) }
}

/// Saturating quotient of two scalars; division by zero yields zero.
pub open spec fn fdiv(a: Fx, b: Fx) -> Fx {
    Fx { raw: sdiv64(a.raw, b.raw) }
}

/// Quotient of a scalar by a positive integer.
pub open spec fn fdivi(a: Fx, k: u64) -> Fx {
    Fx { raw: sdivi64(a.raw, k) }
}

/// Square root of a scalar; nonpositive inputs yield zero.
pub open spec fn fsqrt(a: Fx) -> Fx {
    Fx { raw: ssqrt64(a.raw) }
}

/// The scalar representing the integer `i`, saturated into range.
pub open spec fn fint(i: i64) -> Fx {
    Fx { raw: sat64(i as int * (FX_ONE as int)) }
}

/// The scalar representing the ratio of two nonnegative integers, rounded
/// toward zero and saturated into range.
pub open spec fn fratio(num: u32, den: u32) -> Fx {
    Fx { raw: sat64((num as int * (FX_ONE as int)) / den as int) }
}

/// Saturate a wide intermediate into the raw range.
fn clip_wide(w: i128) -> (r: i64)
    ensures
        r == sat64(w as int),
{
    if w > FX_SAT as i128 {
        FX_SAT
    } else if w < FX_SAT_NEG as i128 {
        FX_SAT_NEG
    } else {
        w as i64
    }
}

/// Magnitude of a raw value, as an unsigned integer.
fn mag_u64(a: i64) -> (m: u64)
    ensures
        m as int == mag(a as int),
{
    if a >= 0 {
        a as u64
    } else {
        (-(a as i128)) as u64
    }
}

/// Saturate an unsigned magnitude into the raw range and apply a sign.
fn clip_mag(m: u128, negative: bool) -> (r: i64)
    ensures
        r == (if negative {
            sat64(-(m as int))
        } else {
            sat64(m as int)
        }),
{
    let c: u128 = if m > FX_SAT as u128 {
        FX_SAT as u128
    } else {
        m
    };
    if negative {
        -(c as i64)
    } else {
        c as i64
    }
}

/// The product of two raw values has the magnitude and sign given by the
/// factors' magnitudes and signs.
proof fn lemma_mul_sign_mag(a: int, b: int)
    ensures
        mag(a * b) == mag(a) * mag(b),
        ((a < 0) != (b < 0)) ==> a * b <= 0,
        !((a < 0) != (b < 0)) ==> a * b >= 0,
{
    assert(mag(a * b) == mag(a) * mag(b) && (((a < 0) != (b < 0)) ==> a * b <= 0) && (!((a < 0)
        != (b < 0)) ==> a * b >= 0)) by (nonlinear_arith);
}

impl Fx {
    /// The scalar zero.
    pub fn zero() -> (r: Fx)
        ensures
            r == (Fx { raw: 0 }),
    {
        Fx { raw: 0 }
    }

    /// The scalar representing the integer `i`.
    pub fn from_int(i: i64) -> (r: Fx)
        ensures
            r == fint(i),
    {
        let w: i128 = (i as i128) * 4294967296i128;
        Fx { raw: clip_wide(w) }
    }

    /// The scalar representing the ratio of two integers (an aspect ratio).
    pub fn from_ratio(num: u32, den: u32) -> (r: Fx)
        requires
            den > 0,
        ensures
            r == fratio(num, den),
    {
        let p: u128 = (num as u128) * 4294967296u128;
        let q: u128 = p / (den as u128);
        Fx { raw: clip_mag(q, false) }
    }

    /// Saturating addition.
    pub fn add(self, other: Fx) -> (r: Fx)
        ensures
            r == fadd(self, other),
    {
        let w: i128 = self.raw as i128 + other.raw as i128;
        Fx { raw: clip_wide(w) }
    }

    /// Saturating subtraction.
    pub fn sub(self, other: Fx) -> (r: Fx)
        ensures
            r == fsub(self, other),
    {
        let w: i128 = self.raw as i128 - other.raw as i128;
        Fx { raw: clip_wide(w) }
    }

    /// Saturating negation.
    pub fn neg(self) -> (r: Fx)
        ensures
            r == fneg(self),
    {
        let w: i128 = -(self.raw as i128);
        Fx { raw: clip_wide(w) }
    }

    /// Saturating fixed-point multiplication, rounding toward zero.
    pub fn mul(self, other: Fx) -> (r: Fx)
        ensures
            r == fmul(self, other),
    {
        let negative: bool = (self.raw < 0) != (other.raw < 0);
        let ma: u64 = mag_u64(self.raw);
        let mb: u64 = mag_u64(other.raw);
        proof {
            lemma_mul_sign_mag(self.raw as int, other.raw as int);
            assert((ma as int) * (mb as int) <= 0x8000000000000000 * 0x8000000000000000)
                by (nonlinear_arith)
                requires
                    ma as int <= 0x8000000000000000,
                    mb as int <= 0x8000000000000000,
            ;
        }
        let p: u128 = (ma as u128) * (mb as u128);
        let q: u128 = p / (FX_ONE as u128);
        Fx { raw: clip_mag(q, negative) }
    }

    /// Saturating fixed-point division, rounding toward zero; division by
    /// zero yields zero.
    pub fn div(self, other: Fx) -> (r: Fx)
        ensures
            r == fdiv(self, other),
    {
        if other.raw == 0 {
            return Fx { raw: 0 };
        }
        let negative: bool = (self.raw < 0) != (other.raw < 0);
        let ma: u64 = mag_u64(self.raw);
        let mb: u64 = mag_u64(other.raw);
        let p: u128 = (ma as u128) * 4294967296u128;
        let q: u128 = p / (mb as u128);
        Fx { raw: clip_mag(q, negative) }
    }

    /// Division by a positive integer, rounding toward zero.
    pub fn divi(self, k: u64) -> (r: Fx)
        requires
            k > 0,
        ensures
            r == fdivi(self, k),
    {
        let m: u64 = mag_u64(self.raw);
        let q: u64 = m / k;
        Fx { raw: clip_mag(q as u128, self.raw < 0) }
    }

    /// Square root; nonpositive inputs yield zero.
    pub fn sqrt(self) -> (r: Fx)
        ensures
            r == fsqrt(self),
    {
        if self.raw <= 0 {
            return Fx { raw: 0 };
        }
        let n: u128 = (self.raw as u128) * 4294967296u128;
        let s: u64 = isqrt96(n);
        proof {
            lemma_ssqrt_r(n as nat);
            lemma_isqrt_unique(s as int, ssqrt_r(n as nat) as int, n as int);
        }
        Fx { raw: s as i64 }
    }
}

/// Integer square root of a value below 2^96, by binary search.
fn isqrt96(n: u128) -> (r: u64)
    requires
        n < 0x1000000000000000000000000,
    ensures
        (r as int) * (r as int) <= n as int,
        (n as int) < ((r as int) + 1) * ((r as int) + 1),
        r < 0x1000000000000,
{
    let mut lo: u128 = 0;
    let mut hi: u128 = 0x1000000000000;
    while lo + 1 < hi
        invariant
            lo < hi <= 0x1000000000000,
            (lo as int) * (lo as int) <= n as int,
            (n as int) < (hi as int) * (hi as int),
        decreases hi - lo,
    {
        let mid: u128 = lo + (hi - lo) / 2;
        proof {
            assert((mid as int) * (mid as int) <= 0x1000000000000 * 0x1000000000000)
                by (nonlinear_arith)
                requires
                    0 <= mid as int <= 0x1000000000000,
            ;
        }
        if mid * mid <= n {
            lo = mid;
        } else {
            hi = mid;
        }
    }
    proof {
        assert((n as int) < ((lo as int) + 1) * ((lo as int) + 1)) by (nonlinear_arith)
            requires
                hi as int <= (lo as int) + 1,
                (n as int) < (hi as int) * (hi as int),
        ;
    }
    lo as u64
}

} // verus!
