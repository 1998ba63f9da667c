//! Composition of an offset and a rotation into a single matrix.
use crate::algebra::{m4mul, m4rotation, m4translation, Mat4, Quat, Vec3};
use vstd::prelude::*;

verus! {

/// A rigid placement: an offset from the origin and a rotation.
#[derive(Clone, Copy, PartialEq, Eq, Structural, Debug)]
pub struct Transform {
    pub position: Vec3,
    pub rotation: Quat,
}

/// The matrix of a transform: translation composed with rotation.
pub open spec fn transform_matrix(t: Transform) -> Mat4 {
    m4mul(m4translation(t.position), m4rotation(t.rotation))
}

impl Transform {
    /// The matrix of this transform.
    pub fn matrix(self) -> (r: Mat4)
        ensures
            r == transform_matrix(self),
    {
        Mat4::from_translation(self.position).mul(Mat4::from_quat(self.rotation))
    }
}

} // verus!
