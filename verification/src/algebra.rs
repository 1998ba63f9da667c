//! Vectors, quaternions and column-major 4x4 matrices over fixed-point
//! scalars.
//!
//! Each executable operation is mirrored by a spec function over the same
//! values, so matrix compositions have exact contracts. A vector with zero
//! magnitude normalizes to the zero vector (division by zero yields zero).
use crate::fixed::{fadd, fdiv, fdivi, fmul, fneg, fsqrt, fsub, Fx, FX_ONE};
use crate::trig::{fcos, fsin};
use vstd::prelude::*;

verus! {

/// A two-component vector (mouse deltas).
#[derive(Clone, Copy, PartialEq, Eq, Structural, Debug)]
pub struct Vec2 {
    pub x: Fx,
    pub y: Fx,
}

impl Vec2 {
    /// Build a vector from its components.
    pub fn new(x: Fx, y: Fx) -> (r: Vec2)
        ensures
            r == (Vec2 { x, y }),
    {
        Vec2 { x, y }
    }
}

/// A three-component vector; also used for points in space.
#[derive(Clone, Copy, PartialEq, Eq, Structural, Debug)]
pub struct Vec3 {
    pub x: Fx,
    pub y: Fx,
    pub z: Fx,
}

/// Component-wise sum.
pub open spec fn v3add(a: Vec3, b: Vec3) -> Vec3 {
    Vec3 { x: fadd(a.x, b.x), y: fadd(a.y, b.y), z: fadd(a.z, b.z) }
}

/// Component-wise negation.
pub open spec fn v3neg(a: Vec3) -> Vec3 {
    Vec3 { x: fneg(a.x), y: fneg(a.y), z: fneg(a.z) }
}

/// Vector scaled by a scalar.
pub open spec fn v3scale(a: Vec3, s: Fx) -> Vec3 {
    Vec3 { x: fmul(a.x, s), y: fmul(a.y, s), z: fmul(a.z, s) }
}

/// Dot product.
pub open spec fn v3dot(a: Vec3, b: Vec3) -> Fx {
    fadd(fadd(fmul(a.x, b.x), fmul(a.y, b.y)), fmul(a.z, b.z))
}

/// Cross product.
pub open spec fn v3cross(a: Vec3, b: Vec3) -> Vec3 {
    Vec3 {
        x: fsub(fmul(a.y, b.z), fmul(a.z, b.y)),
        y: fsub(fmul(a.z, b.x), fmul(a.x, b.z)),
        z: fsub(fmul(a.x, b.y), fmul(a.y, b.x)),
    }
}

/// Magnitude, the square root of the dot product with itself.
pub open spec fn v3mag(a: Vec3) -> Fx {
    fsqrt(v3dot(a, a))
}

/// The vector rescaled to unit length by the reciprocal of its magnitude; a
/// zero-magnitude vector maps to the zero vector.
pub open spec fn v3normalize(a: Vec3) -> Vec3 {
    v3scale(a, fdiv(Fx { raw: FX_ONE }, v3mag(a)))
}

impl Vec3 {
    /// Build a vector from its components.
    pub fn new(x: Fx, y: Fx, z: Fx) -> (r: Vec3)
        ensures
            r == (Vec3 { x, y, z }),
    {
        Vec3 { x, y, z }
    }

    /// The zero vector.
    pub fn zero() -> (r: Vec3)
        ensures
            r == (Vec3 { x: Fx { raw: 0 }, y: Fx { raw: 0 }, z: Fx { raw: 0 } }),
    {
        Vec3 { x: Fx { raw: 0 }, y: Fx { raw: 0 }, z: Fx { raw: 0 } }
    }

    /// The unit vector along the world up axis.
    pub fn unit_y() -> (r: Vec3)
        ensures
            r == (Vec3 { x: Fx { raw: 0 }, y: Fx { raw: FX_ONE }, z: Fx { raw: 0 } }),
    {
        Vec3 { x: Fx { raw: 0 }, y: Fx { raw: FX_ONE }, z: Fx { raw: 0 } }
    }

    /// Component-wise sum.
    pub fn add(self, other: Vec3) -> (r: Vec3)
        ensures
            r == v3add(self, other),
    {
        Vec3 { x: self.x.add(other.x), y: self.y.add(other.y), z: self.z.add(other.z) }
    }

    /// Component-wise negation.
    pub fn neg(self) -> (r: Vec3)
        ensures
            r == v3neg(self),
    {
        Vec3 { x: self.x.neg(), y: self.y.neg(), z: self.z.neg() }
    }

    /// The vector scaled by a scalar.
    pub fn scale(self, s: Fx) -> (r: Vec3)
        ensures
            r == v3scale(self, s),
    {
        Vec3 { x: self.x.mul(s), y: self.y.mul(s), z: self.z.mul(s) }
    }

    /// Dot product.
    pub fn dot(self, other: Vec3) -> (r: Fx)
        ensures
            r == v3dot(self, other),
    {
        self.x.mul(other.x).add(self.y.mul(other.y)).add(self.z.mul(other.z))
    }

    /// Cross product.
    pub fn cross(self, other: Vec3) -> (r: Vec3)
        ensures
            r == v3cross(self, other),
    {
        Vec3 {
            x: self.y.mul(other.z).sub(self.z.mul(other.y)),
            y: self.z.mul(other.x).sub(self.x.mul(other.z)),
            z: self.x.mul(other.y).sub(self.y.mul(other.x)),
        }
    }

    /// Magnitude.
    pub fn magnitude(self) -> (r: Fx)
        ensures
            r == v3mag(self),
    {
        self.dot(self).sqrt()
    }

    /// Rescale to unit length; the zero vector stays zero.
    pub fn normalize(self) -> (r: Vec3)
        ensures
            r == v3normalize(self),
    {
        let inv = Fx { raw: FX_ONE }.div(self.magnitude());
        self.scale(inv)
    }
}

/// A quaternion with scalar part `s` and vector part `(x, y, z)`.
#[derive(Clone, Copy, PartialEq, Eq, Structural, Debug)]
pub struct Quat {
    pub s: Fx,
    pub x: Fx,
    pub y: Fx,
    pub z: Fx,
}

impl Quat {
    /// The zero quaternion; its rotation matrix is the identity.
    pub fn zero() -> (r: Quat)
        ensures
            r == (Quat {
                s: Fx { raw: 0 },
                x: Fx { raw: 0 },
                y: Fx { raw: 0 },
                z: Fx { raw: 0 },
            }),
    {
        Quat { s: Fx { raw: 0 }, x: Fx { raw: 0 }, y: Fx { raw: 0 }, z: Fx { raw: 0 } }
    }
}

/// A 4x4 matrix of fixed-point scalars; `cCrR` is the entry in column C,
/// row R, so the fields read in column-major order.
#[derive(Clone, Copy, PartialEq, Eq, Structural, Debug)]
pub struct Mat4 {
    pub c0r0: Fx,
    pub c0r1: Fx,
    pub c0r2: Fx,
    pub c0r3: Fx,
    pub c1r0: Fx,
    pub c1r1: Fx,
    pub c1r2: Fx,
    pub c1r3: Fx,
    pub c2r0: Fx,
    pub c2r1: Fx,
    pub c2r2: Fx,
    pub c2r3: Fx,
    pub c3r0: Fx,
    pub c3r1: Fx,
    pub c3r2: Fx,
    pub c3r3: Fx,
}

/// Matrix product, each entry the left-associated sum of four products.
#[verifier::opaque]
pub open spec fn m4mul(a: Mat4, b: Mat4) -> Mat4 {
    Mat4 {
        c0r0: fadd(fadd(fadd(fmul(a.c0r0, b.c0r0), fmul(a.c1r0, b.c0r1)), fmul(a.c2r0, b.c0r2)), fmul(a.c3r0, b.c0r3)),
        c0r1: fadd(fadd(fadd(fmul(a.c0r1, b.c0r0), fmul(a.c1r1, b.c0r1)), fmul(a.c2r1, b.c0r2)), fmul(a.c3r1, b.c0r3)),
        c0r2: fadd(fadd(fadd(fmul(a.c0r2, b.c0r0), fmul(a.c1r2, b.c0r1)), fmul(a.c2r2, b.c0r2)), fmul(a.c3r2, b.c0r3)),
        c0r3: fadd(fadd(fadd(fmul(a.c0r3, b.c0r0), fmul(a.c1r3, b.c0r1)), fmul(a.c2r3, b.c0r2)), fmul(a.c3r3, b.c0r3)),
        c1r0: fadd(fadd(fadd(fmul(a.c0r0, b.c1r0), fmul(a.c1r0, b.c1r1)), fmul(a.c2r0, b.c1r2)), fmul(a.c3r0, b.c1r3)),
        c1r1: fadd(fadd(fadd(fmul(a.c0r1, b.c1r0), fmul(a.c1r1, b.c1r1)), fmul(a.c2r1, b.c1r2)), fmul(a.c3r1, b.c1r3)),
        c1r2: fadd(fadd(fadd(fmul(a.c0r2, b.c1r0), fmul(a.c1r2, b.c1r1)), fmul(a.c2r2, b.c1r2)), fmul(a.c3r2, b.c1r3)),
        c1r3: fadd(fadd(fadd(fmul(a.c0r3, b.c1r0), fmul(a.c1r3, b.c1r1)), fmul(a.c2r3, b.c1r2)), fmul(a.c3r3, b.c1r3)),
        c2r0: fadd(fadd(fadd(fmul(a.c0r0, b.c2r0), fmul(a.c1r0, b.c2r1)), fmul(a.c2r0, b.c2r2)), fmul(a.c3r0, b.c2r3)),
        c2r1: fadd(fadd(fadd(fmul(a.c0r1, b.c2r0), fmul(a.c1r1, b.c2r1)), fmul(a.c2r1, b.c2r2)), fmul(a.c3r1, b.c2r3)),
        c2r2: fadd(fadd(fadd(fmul(a.c0r2, b.c2r0), fmul(a.c1r2, b.c2r1)), fmul(a.c2r2, b.c2r2)), fmul(a.c3r2, b.c2r3)),
        c2r3: fadd(fadd(fadd(fmul(a.c0r3, b.c2r0), fmul(a.c1r3, b.c2r1)), fmul(a.c2r3, b.c2r2)), fmul(a.c3r3, b.c2r3)),
        c3r0: fadd(fadd(fadd(fmul(a.c0r0, b.c3r0), fmul(a.c1r0, b.c3r1)), fmul(a.c2r0, b.c3r2)), fmul(a.c3r0, b.c3r3)),
        c3r1: fadd(fadd(fadd(fmul(a.c0r1, b.c3r0), fmul(a.c1r1, b.c3r1)), fmul(a.c2r1, b.c3r2)), fmul(a.c3r1, b.c3r3)),
        c3r2: fadd(fadd(fadd(fmul(a.c0r2, b.c3r0), fmul(a.c1r2, b.c3r1)), fmul(a.c2r2, b.c3r2)), fmul(a.c3r2, b.c3r3)),
        c3r3: fadd(fadd(fadd(fmul(a.c0r3, b.c3r0), fmul(a.c1r3, b.c3r1)), fmul(a.c2r3, b.c3r2)), fmul(a.c3r3, b.c3r3)),
    }
}

impl Mat4 {
    /// The identity matrix.
    pub fn identity() -> (r: Mat4)
        ensures
            r == m4identity(),
    {
        let o = Fx { raw: FX_ONE };
        let z = Fx { raw: 0 };
        Mat4 {
            c0r0: o, c0r1: z, c0r2: z, c0r3: z,
            c1r0: z, c1r1: o, c1r2: z, c1r3: z,
            c2r0: z, c2r1: z, c2r2: o, c2r3: z,
            c3r0: z, c3r1: z, c3r2: z, c3r3: o,
        }
    }

    /// Matrix product.
    pub fn mul(self, other: Mat4) -> (r: Mat4)
        ensures
            r == m4mul(self, other),
    {
        proof {
            reveal(m4mul);
        }
        let a = self;
        let b = other;
        Mat4 {
            c0r0: a.c0r0.mul(b.c0r0).add(a.c1r0.mul(b.c0r1)).add(a.c2r0.mul(b.c0r2)).add(a.c3r0.mul(b.c0r3)),
            c0r1: a.c0r1.mul(b.c0r0).add(a.c1r1.mul(b.c0r1)).add(a.c2r1.mul(b.c0r2)).add(a.c3r1.mul(b.c0r3)),
            c0r2: a.c0r2.mul(b.c0r0).add(a.c1r2.mul(b.c0r1)).add(a.c2r2.mul(b.c0r2)).add(a.c3r2.mul(b.c0r3)),
            c0r3: a.c0r3.mul(b.c0r0).add(a.c1r3.mul(b.c0r1)).add(a.c2r3.mul(b.c0r2)).add(a.c3r3.mul(b.c0r3)),
            c1r0: a.c0r0.mul(b.c1r0).add(a.c1r0.mul(b.c1r1)).add(a.c2r0.mul(b.c1r2)).add(a.c3r0.mul(b.c1r3)),
            c1r1: a.c0r1.mul(b.c1r0).add(a.c1r1.mul(b.c1r1)).add(a.c2r1.mul(b.c1r2)).add(a.c3r1.mul(b.c1r3)),
            c1r2: a.c0r2.mul(b.c1r0).add(a.c1r2.mul(b.c1r1)).add(a.c2r2.mul(b.c1r2)).add(a.c3r2.mul(b.c1r3)),
            c1r3: a.c0r3.mul(b.c1r0).add(a.c1r3.mul(b.c1r1)).add(a.c2r3.mul(b.c1r2)).add(a.c3r3.mul(b.c1r3)),
            c2r0: a.c0r0.mul(b.c2r0).add(a.c1r0.mul(b.c2r1)).add(a.c2r0.mul(b.c2r2)).add(a.c3r0.mul(b.c2r3)),
            c2r1: a.c0r1.mul(b.c2r0).add(a.c1r1.mul(b.c2r1)).add(a.c2r1.mul(b.c2r2)).add(a.c3r1.mul(b.c2r3)),
            c2r2: a.c0r2.mul(b.c2r0).add(a.c1r2.mul(b.c2r1)).add(a.c2r2.mul(b.c2r2)).add(a.c3r2.mul(b.c2r3)),
            c2r3: a.c0r3.mul(b.c2r0).add(a.c1r3.mul(b.c2r1)).add(a.c2r3.mul(b.c2r2)).add(a.c3r3.mul(b.c2r3)),
            c3r0: a.c0r0.mul(b.c3r0).add(a.c1r0.mul(b.c3r1)).add(a.c2r0.mul(b.c3r2)).add(a.c3r0.mul(b.c3r3)),
            c3r1: a.c0r1.mul(b.c3r0).add(a.c1r1.mul(b.c3r1)).add(a.c2r1.mul(b.c3r2)).add(a.c3r1.mul(b.c3r3)),
            c3r2: a.c0r2.mul(b.c3r0).add(a.c1r2.mul(b.c3r1)).add(a.c2r2.mul(b.c3r2)).add(a.c3r2.mul(b.c3r3)),
            c3r3: a.c0r3.mul(b.c3r0).add(a.c1r3.mul(b.c3r1)).add(a.c2r3.mul(b.c3r2)).add(a.c3r3.mul(b.c3r3)),
        }
    }
}

/// The identity matrix.
pub open spec fn m4identity() -> Mat4 {
    Mat4 {
        c0r0: Fx { raw: FX_ONE }, c0r1: Fx { raw: 0 }, c0r2: Fx { raw: 0 }, c0r3: Fx { raw: 0 },
        c1r0: Fx { raw: 0 }, c1r1: Fx { raw: FX_ONE }, c1r2: Fx { raw: 0 }, c1r3: Fx { raw: 0 },
        c2r0: Fx { raw: 0 }, c2r1: Fx { raw: 0 }, c2r2: Fx { raw: FX_ONE }, c2r3: Fx { raw: 0 },
        c3r0: Fx { raw: 0 }, c3r1: Fx { raw: 0 }, c3r2: Fx { raw: 0 }, c3r3: Fx { raw: FX_ONE },
    }
}


/// Raw value of pi over 180: one degree in radians.
pub const RAD_PER_DEG_RAW: i64 = 74961321;

/// Raw value of one half.
pub const HALF_RAW: i64 = 2147483648;

/// Raw value of two.
pub const TWO_RAW: i64 = 8589934592;

/// The translation matrix moving the origin to `v`.
#[verifier::opaque]
pub open spec fn m4translation(v: Vec3) -> Mat4 {
    Mat4 {
        c0r0: Fx { raw: FX_ONE }, c0r1: Fx { raw: 0 }, c0r2: Fx { raw: 0 }, c0r3: Fx { raw: 0 },
        c1r0: Fx { raw: 0 }, c1r1: Fx { raw: FX_ONE }, c1r2: Fx { raw: 0 }, c1r3: Fx { raw: 0 },
        c2r0: Fx { raw: 0 }, c2r1: Fx { raw: 0 }, c2r2: Fx { raw: FX_ONE }, c2r3: Fx { raw: 0 },
        c3r0: v.x, c3r1: v.y, c3r2: v.z, c3r3: Fx { raw: FX_ONE },
    }
}

/// The rotation matrix of a quaternion; the zero quaternion maps to the
/// identity.
#[verifier::opaque]
pub open spec fn m4rotation(q: Quat) -> Mat4 {
    let x2 = fadd(q.x, q.x);
    let y2 = fadd(q.y, q.y);
    let z2 = fadd(q.z, q.z);
    let xx2 = fmul(x2, q.x);
    let xy2 = fmul(x2, q.y);
    let xz2 = fmul(x2, q.z);
    let yy2 = fmul(y2, q.y);
    let yz2 = fmul(y2, q.z);
    let zz2 = fmul(z2, q.z);
    let sy2 = fmul(y2, q.s);
    let sz2 = fmul(z2, q.s);
    let sx2 = fmul(x2, q.s);
    let one = Fx { raw: FX_ONE };
    let zero = Fx { raw: 0 };
    Mat4 {
        c0r0: fsub(fsub(one, yy2), zz2), c0r1: fadd(xy2, sz2), c0r2: fsub(xz2, sy2), c0r3: zero,
        c1r0: fsub(xy2, sz2), c1r1: fsub(fsub(one, xx2), zz2), c1r2: fadd(yz2, sx2), c1r3: zero,
        c2r0: fadd(xz2, sy2), c2r1: fsub(yz2, sx2), c2r2: fsub(fsub(one, xx2), yy2), c2r3: zero,
        c3r0: zero, c3r1: zero, c3r2: zero, c3r3: one,
    }
}

/// The right-handed view matrix looking from `eye` along `dir` with the
/// given up direction.
#[verifier::opaque]
pub open spec fn m4look_to_rh(eye: Vec3, dir: Vec3, up: Vec3) -> Mat4 {
    let f = v3normalize(dir);
    let s = v3normalize(v3cross(f, up));
    let u = v3cross(s, f);
    let zero = Fx { raw: 0 };
    Mat4 {
        c0r0: s.x, c0r1: u.x, c0r2: fneg(f.x), c0r3: zero,
        c1r0: s.y, c1r1: u.y, c1r2: fneg(f.y), c1r3: zero,
        c2r0: s.z, c2r1: u.z, c2r2: fneg(f.z), c2r3: zero,
        c3r0: fneg(v3dot(eye, s)), c3r1: fneg(v3dot(eye, u)), c3r2: v3dot(eye, f),
        c3r3: Fx { raw: FX_ONE },
    }
}

/// The perspective projection matrix for a vertical field of view given in
/// degrees, mapping depth onto `[-1, 1]`.
#[verifier::opaque]
pub open spec fn m4perspective(fovy_deg: Fx, aspect: Fx, near: Fx, far: Fx) -> Mat4 {
    let half = fdivi(fmul(fovy_deg, Fx { raw: RAD_PER_DEG_RAW }), 2);
    let f = fdiv(fcos(half), fsin(half));
    let zero = Fx { raw: 0 };
    Mat4 {
        c0r0: fdiv(f, aspect), c0r1: zero, c0r2: zero, c0r3: zero,
        c1r0: zero, c1r1: f, c1r2: zero, c1r3: zero,
        c2r0: zero, c2r1: zero, c2r2: fdiv(fadd(far, near), fsub(near, far)),
        c2r3: fneg(Fx { raw: FX_ONE }),
        c3r0: zero, c3r1: zero,
        c3r2: fdiv(fmul(fmul(Fx { raw: TWO_RAW }, far), near), fsub(near, far)),
        c3r3: zero,
    }
}

impl Mat4 {
    /// The translation matrix moving the origin to `v`.
    pub fn from_translation(v: Vec3) -> (r: Mat4)
        ensures
            r == m4translation(v),
    {
        proof {
            reveal(m4translation);
        }
        let o = Fx { raw: FX_ONE };
        let z = Fx { raw: 0 };
        Mat4 {
            c0r0: o, c0r1: z, c0r2: z, c0r3: z,
            c1r0: z, c1r1: o, c1r2: z, c1r3: z,
            c2r0: z, c2r1: z, c2r2: o, c2r3: z,
            c3r0: v.x, c3r1: v.y, c3r2: v.z, c3r3: o,
        }
    }

    /// The rotation matrix of a quaternion.
    pub fn from_quat(q: Quat) -> (r: Mat4)
        ensures
            r == m4rotation(q),
    {
        proof {
            reveal(m4rotation);
        }
        let x2 = q.x.add(q.x);
        let y2 = q.y.add(q.y);
        let z2 = q.z.add(q.z);
        let xx2 = x2.mul(q.x);
        let xy2 = x2.mul(q.y);
        let xz2 = x2.mul(q.z);
        let yy2 = y2.mul(q.y);
        let yz2 = y2.mul(q.z);
        let zz2 = z2.mul(q.z);
        let sy2 = y2.mul(q.s);
        let sz2 = z2.mul(q.s);
        let sx2 = x2.mul(q.s);
        let one = Fx { raw: FX_ONE };
        let zero = Fx { raw: 0 };
        Mat4 {
            c0r0: one.sub(yy2).sub(zz2), c0r1: xy2.add(sz2), c0r2: xz2.sub(sy2), c0r3: zero,
            c1r0: xy2.sub(sz2), c1r1: one.sub(xx2).sub(zz2), c1r2: yz2.add(sx2), c1r3: zero,
            c2r0: xz2.add(sy2), c2r1: yz2.sub(sx2), c2r2: one.sub(xx2).sub(yy2), c2r3: zero,
            c3r0: zero, c3r1: zero, c3r2: zero, c3r3: one,
        }
    }

    /// The right-handed view matrix looking from `eye` along `dir`.
    pub fn look_to_rh(eye: Vec3, dir: Vec3, up: Vec3) -> (r: Mat4)
        ensures
            r == m4look_to_rh(eye, dir, up),
    {
        proof {
            reveal(m4look_to_rh);
        }
        let f = dir.normalize();
        let s = f.cross(up).normalize();
        let u = s.cross(f);
        let zero = Fx { raw: 0 };
        Mat4 {
            c0r0: s.x, c0r1: u.x, c0r2: f.x.neg(), c0r3: zero,
            c1r0: s.y, c1r1: u.y, c1r2: f.y.neg(), c1r3: zero,
            c2r0: s.z, c2r1: u.z, c2r2: f.z.neg(), c2r3: zero,
            c3r0: eye.dot(s).neg(), c3r1: eye.dot(u).neg(), c3r2: eye.dot(f),
            c3r3: Fx { raw: FX_ONE },
        }
    }

    /// The perspective projection matrix for a vertical field of view given
    /// in degrees.
    pub fn perspective(fovy_deg: Fx, aspect: Fx, near: Fx, far: Fx) -> (r: Mat4)
        ensures
            r == m4perspective(fovy_deg, aspect, near, far),
    {
        proof {
            reveal(m4perspective);
        }
        let half = fovy_deg.mul(Fx { raw: RAD_PER_DEG_RAW }).divi(2);
        let (sh, ch) = crate::trig::sin_cos(half);
        let f = ch.div(sh);
        let zero = Fx { raw: 0 };
        Mat4 {
            c0r0: f.div(aspect), c0r1: zero, c0r2: zero, c0r3: zero,
            c1r0: zero, c1r1: f, c1r2: zero, c1r3: zero,
            c2r0: zero, c2r1: zero, c2r2: far.add(near).div(near.sub(far)),
            c2r3: Fx { raw: FX_ONE }.neg(),
            c3r0: zero, c3r1: zero,
            c3r2: Fx { raw: TWO_RAW }.mul(far).mul(near).div(near.sub(far)),
            c3r3: zero,
        }
    }

    /// The sixteen raw entries in column-major order.
    pub fn to_raw(&self) -> (r: Vec<i64>)
        ensures
            r@ =~= seq![
                self.c0r0.raw, self.c0r1.raw, self.c0r2.raw, self.c0r3.raw,
                self.c1r0.raw, self.c1r1.raw, self.c1r2.raw, self.c1r3.raw,
                self.c2r0.raw, self.c2r1.raw, self.c2r2.raw, self.c2r3.raw,
                self.c3r0.raw, self.c3r1.raw, self.c3r2.raw, self.c3r3.raw,
            ],
    {
        let mut r: Vec<i64> = Vec::new();
        r.push(self.c0r0.raw); r.push(self.c0r1.raw); r.push(self.c0r2.raw); r.push(self.c0r3.raw);
        r.push(self.c1r0.raw); r.push(self.c1r1.raw); r.push(self.c1r2.raw); r.push(self.c1r3.raw);
        r.push(self.c2r0.raw); r.push(self.c2r1.raw); r.push(self.c2r2.raw); r.push(self.c2r3.raw);
        r.push(self.c3r0.raw); r.push(self.c3r1.raw); r.push(self.c3r2.raw); r.push(self.c3r3.raw);
        r
    }
}

} // verus!
