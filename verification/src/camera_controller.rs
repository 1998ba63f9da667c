//! Translation of input deltas into camera mutations.
use crate::algebra::{v3add, v3neg, v3normalize, v3scale, Vec2, Vec3};
use crate::camera::{Camera, DepthRange};
use crate::fixed::{fadd, fmul, fneg, Fx};
use crate::trig::{fcos, fsin, sin_cos, swrap64, wrap_angle};
use vstd::prelude::*;

verus! {

/// Raw pitch bound: pi over two minus a small guard, so the view never
/// reaches the poles where the look-to basis degenerates.
pub const SAFE_PITCH_RAW: i64 = 6746089356;

/// Raw value of the fixed per-call translation scale.
pub const MOVE_SCALE_RAW: i64 = 858993459;

/// Raw value of the default rotation sensitivity.
pub const LOOK_SPEED_RAW: i64 = 429496730;

/// Raw lower pitch bound, the negation of the safe pitch.
pub const NEG_SAFE_PITCH_RAW: i64 = -6746089356;

/// Drives a camera from discrete input deltas.
pub struct CameraController {
    pub camera: Camera,
    /// Rotation sensitivity: radians of yaw or pitch per unit of delta.
    pub speed: Fx,
}

/// Where translation moves the eye: the walk basis is derived from yaw
/// alone, so pitch never affects ground movement. The intent vector selects
/// strafe (x), vertical (y) and forward or back (z), each scaled by the
/// fixed per-call factor.
pub open spec fn translate_eye(eye: Vec3, yaw: Fx, translation: Vec3) -> Vec3 {
    let scale = Fx { raw: MOVE_SCALE_RAW };
    let forward = v3normalize(
        Vec3 { x: fcos(yaw), y: Fx { raw: 0 }, z: fsin(yaw) },
    );
    let right = v3normalize(
        Vec3 { x: fneg(fsin(yaw)), y: Fx { raw: 0 }, z: fcos(yaw) },
    );
    let after_forward = v3add(eye, v3scale(v3scale(v3neg(forward), translation.z), scale));
    let after_right = v3add(after_forward, v3scale(v3scale(right, translation.x), scale));
    Vec3 {
        x: after_right.x,
        y: fadd(after_right.y, fmul(translation.y, scale)),
        z: after_right.z,
    }
}

/// The yaw after a rotation: the delta times the sensitivity is added and
/// the result is wrapped into `(-pi, pi]` for numerical hygiene.
pub open spec fn rotate_yaw(yaw: Fx, delta_x: Fx, speed: Fx) -> Fx {
    Fx { raw: swrap64(fadd(yaw, fmul(delta_x, speed)).raw) }
}

/// The pitch after a rotation: the delta is inverted (mouse up looks up),
/// scaled by the sensitivity, added, and clamped into the safe range.
pub open spec fn rotate_pitch(pitch: Fx, delta_y: Fx, speed: Fx) -> Fx {
    let p = fadd(pitch, fmul(fneg(delta_y), speed));
    if p.raw < NEG_SAFE_PITCH_RAW {
        Fx { raw: NEG_SAFE_PITCH_RAW }
    } else if p.raw > SAFE_PITCH_RAW {
        Fx { raw: SAFE_PITCH_RAW }
    } else {
        p
    }
}

impl CameraController {
    /// A controller with the default camera parameters: a 16:9 aspect, a 75
    /// degree field of view, near and far planes at one and ten, depth
    /// compressed to `[0, 1]`, and the default look sensitivity.
    pub fn new(position: Vec3) -> (r: CameraController)
        ensures
            r.camera == (Camera {
                eye: position,
                yaw: Fx { raw: 0 },
                pitch: Fx { raw: 0 },
                aspect: crate::fixed::fdiv(crate::fixed::fint(1920i64), crate::fixed::fint(1080i64)),
                fovy: crate::fixed::fint(75i64),
                znear: crate::fixed::fint(1i64),
                zfar: crate::fixed::fint(10i64),
                depth_range: DepthRange::ZeroToOne,
            }),
            r.speed == (Fx { raw: LOOK_SPEED_RAW }),
    {
        CameraController {
            camera: Camera {
                eye: position,
                yaw: Fx { raw: 0 },
                pitch: Fx { raw: 0 },
                aspect: Fx::from_int(1920).div(Fx::from_int(1080)),
                fovy: Fx::from_int(75),
                znear: Fx::from_int(1),
                zfar: Fx::from_int(10),
                depth_range: DepthRange::ZeroToOne,
            },
            speed: Fx { raw: LOOK_SPEED_RAW },
        }
    }

    /// Move the eye along the camera-relative axes selected by the intent
    /// vector. Only yaw enters the walk basis: looking up or down never
    /// changes where walking goes.
    pub fn translate_camera(&mut self, translation: Vec3)
        ensures
            final(self).camera == (Camera {
                eye: translate_eye(old(self).camera.eye, old(self).camera.yaw, translation),
                ..old(self).camera
            }),
            final(self).speed == old(self).speed,
    {
        let (sin_yaw, cos_yaw) = sin_cos(self.camera.yaw);
        let forward = Vec3::new(cos_yaw, Fx { raw: 0 }, sin_yaw).normalize();
        let right = Vec3::new(sin_yaw.neg(), Fx { raw: 0 }, cos_yaw).normalize();
        let scale = Fx { raw: MOVE_SCALE_RAW };
        self.camera.eye = self.camera.eye.add(forward.neg().scale(translation.z).scale(scale));
        self.camera.eye = self.camera.eye.add(right.scale(translation.x).scale(scale));
        self.camera.eye.y = self.camera.eye.y.add(translation.y.mul(scale));
    }

    /// Turn the camera by a mouse delta: yaw follows horizontal motion,
    /// pitch follows inverted vertical motion, and pitch is clamped into
    /// the safe range after every update.
    pub fn rotate_camera(&mut self, mouse_delta: Vec2)
        ensures
            final(self).camera == (Camera {
                yaw: rotate_yaw(old(self).camera.yaw, mouse_delta.x, old(self).speed),
                pitch: rotate_pitch(old(self).camera.pitch, mouse_delta.y, old(self).speed),
                ..old(self).camera
            }),
            final(self).speed == old(self).speed,
            -SAFE_PITCH_RAW <= final(self).camera.pitch.raw <= SAFE_PITCH_RAW,
    {
        self.camera.yaw = wrap_angle(self.camera.yaw.add(mouse_delta.x.mul(self.speed)));
        let p = self.camera.pitch.add(mouse_delta.y.neg().mul(self.speed));
        self.camera.pitch = if p.raw < NEG_SAFE_PITCH_RAW {
            Fx { raw: NEG_SAFE_PITCH_RAW }
        } else if p.raw > SAFE_PITCH_RAW {
            Fx { raw: SAFE_PITCH_RAW }
        } else {
            p
        };
    }
}

/// However a rotation sequence begins and whatever deltas it applies, a
/// camera's pitch is inside the safe range after every rotation: the pitch
/// that `rotate_camera` stores never leaves `[-SAFE_PITCH_RAW,
/// SAFE_PITCH_RAW]`, whatever pitch the camera held before.
pub proof fn lemma_pitch_always_clamped(pitch: Fx, delta_y: Fx, speed: Fx)
    ensures
        -SAFE_PITCH_RAW <= rotate_pitch(pitch, delta_y, speed).raw <= SAFE_PITCH_RAW,
{
}

/// The translation basis is yaw-only: two cameras with the same eye and the
/// same yaw but any two pitches are moved to the same new eye by the same
/// translation call, so their eye-position deltas are identical.
pub proof fn lemma_translate_ignores_pitch(c1: Camera, c2: Camera, translation: Vec3)
    requires
        c1.eye == c2.eye,
        c1.yaw == c2.yaw,
    ensures
        translate_eye(c1.eye, c1.yaw, translation) == translate_eye(
            c2.eye,
            c2.yaw,
            translation,
        ),
{
}

} // verus!
