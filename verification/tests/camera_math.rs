//! Camera, controller and projection behaviour.
use mve::algebra::{Vec2, Vec3};
use mve::camera::{Camera, DepthRange};
use mve::camera_controller::{CameraController, NEG_SAFE_PITCH_RAW, SAFE_PITCH_RAW};
use mve::fixed::{Fx, FX_ONE};
use mve::renderable::{DIAG_PITCH_RAW, DIAG_YAW_RAW};
use mve::state::{surface_error_action, FrameAction, State, SurfaceError};
use mve::trig::sin_cos;
use mve::world::World;

const SCALE: f64 = 4294967296.0;

fn to_f64(x: Fx) -> f64 {
    x.raw as f64 / SCALE
}

fn from_f64(v: f64) -> Fx {
    Fx { raw: (v * SCALE).round() as i64 }
}

/// The camera's forward direction as the scene derives it.
fn forward(yaw: Fx, pitch: Fx) -> Vec3 {
    let (sp, cp) = sin_cos(pitch);
    let (sy, cy) = sin_cos(yaw);
    Vec3::new(cp.mul(cy), sp, cp.mul(sy)).normalize()
}

#[test]
fn forward_vector_has_unit_length() {
    // a grid of yaws and clamped pitches
    let yaws = [-3.0, -1.2, 0.0, 0.7, 1.5707963, 2.9];
    let pitches = [-1.5706, -1.0, -0.3, 0.0, 0.4, 1.1, 1.5706];
    for &yv in yaws.iter() {
        for &pv in pitches.iter() {
            let f = forward(from_f64(yv), from_f64(pv));
            let len =
                (to_f64(f.x).powi(2) + to_f64(f.y).powi(2) + to_f64(f.z).powi(2)).sqrt();
            assert!((len - 1.0).abs() < 1e-5, "yaw {yv} pitch {pv} len {len}");
        }
    }
}

#[test]
fn pitch_clamp_survives_large_swings() {
    let mut c = CameraController::new(Vec3::zero());
    for _ in 0..32 {
        c.rotate_camera(Vec2::new(Fx { raw: 0 }, Fx::from_int(100000)));
        assert!(NEG_SAFE_PITCH_RAW <= c.camera.pitch.raw && c.camera.pitch.raw <= SAFE_PITCH_RAW);
        c.rotate_camera(Vec2::new(Fx { raw: 0 }, Fx::from_int(-100000)));
        assert!(NEG_SAFE_PITCH_RAW <= c.camera.pitch.raw && c.camera.pitch.raw <= SAFE_PITCH_RAW);
    }
}

#[test]
fn rotation_moves_yaw_and_clamps_pitch() {
    let mut c = CameraController::new(Vec3::zero());
    c.rotate_camera(Vec2::new(Fx::from_int(1), Fx { raw: 0 }));
    // one unit of delta at sensitivity 0.1 turns a tenth of a radian
    assert!((to_f64(c.camera.yaw) - 0.1).abs() < 1e-6);
    c.rotate_camera(Vec2::new(Fx { raw: 0 }, Fx::from_int(-1)));
    // inverted y: mouse up (negative delta) looks up
    assert!((to_f64(c.camera.pitch) - 0.1).abs() < 1e-6);
}

#[test]
fn translation_basis_is_yaw_only() {
    let mut a = CameraController::new(Vec3::new(from_f64(1.0), from_f64(2.0), from_f64(3.0)));
    let mut b = CameraController::new(Vec3::new(from_f64(1.0), from_f64(2.0), from_f64(3.0)));
    a.rotate_camera(Vec2::new(Fx::from_int(7), Fx::from_int(-9)));
    b.rotate_camera(Vec2::new(Fx::from_int(7), Fx::from_int(4)));
    assert_eq!(a.camera.yaw.raw, b.camera.yaw.raw);
    assert_ne!(a.camera.pitch.raw, b.camera.pitch.raw);
    let intent = Vec3::new(Fx::from_int(1), Fx { raw: 0 }, Fx::from_int(-2));
    a.translate_camera(intent);
    b.translate_camera(intent);
    assert_eq!(a.camera.eye.x.raw, b.camera.eye.x.raw);
    assert_eq!(a.camera.eye.y.raw, b.camera.eye.y.raw);
    assert_eq!(a.camera.eye.z.raw, b.camera.eye.z.raw);
}

#[test]
fn translation_moves_forward_along_yaw() {
    let mut c = CameraController::new(Vec3::zero());
    // yaw 0: forward is +x; the intent convention negates z, so z = -1
    // walks forward and moves +x by the 0.2 scale
    c.translate_camera(Vec3::new(Fx { raw: 0 }, Fx { raw: 0 }, Fx::from_int(-1)));
    assert!((to_f64(c.camera.eye.x) - 0.2).abs() < 1e-6);
    assert!(to_f64(c.camera.eye.y).abs() < 1e-9);
    assert!(to_f64(c.camera.eye.z).abs() < 1e-6);
}

#[test]
fn vertical_translation_ignores_orientation() {
    let mut c = CameraController::new(Vec3::zero());
    c.rotate_camera(Vec2::new(Fx::from_int(3), Fx::from_int(5)));
    c.translate_camera(Vec3::new(Fx { raw: 0 }, Fx::from_int(1), Fx { raw: 0 }));
    assert!((to_f64(c.camera.eye.y) - 0.2).abs() < 1e-6);
    assert!(to_f64(c.camera.eye.x).abs() < 1e-6);
    assert!(to_f64(c.camera.eye.z).abs() < 1e-6);
}

fn mat_to_f64(m: &mve::algebra::Mat4) -> [[f64; 4]; 4] {
    // column-major raw entries to [col][row] of f64
    let raw = m.to_raw();
    let mut out = [[0.0; 4]; 4];
    for c in 0..4 {
        for r in 0..4 {
            out[c][r] = raw[c * 4 + r] as f64 / SCALE;
        }
    }
    out
}

fn apply(m: &[[f64; 4]; 4], v: [f64; 4]) -> [f64; 4] {
    let mut out = [0.0; 4];
    for r in 0..4 {
        for c in 0..4 {
            out[r] += m[c][r] * v[c];
        }
    }
    out
}

#[test]
fn look_target_maps_to_clip_center() {
    let camera = Camera {
        eye: Vec3::new(Fx::from_int(5), Fx::from_int(5), Fx::from_int(5)),
        yaw: Fx { raw: DIAG_YAW_RAW },
        pitch: Fx { raw: DIAG_PITCH_RAW },
        aspect: Fx::from_ratio(1920, 1080),
        fovy: Fx::from_int(75),
        znear: Fx::from_int(1),
        zfar: Fx::from_int(10),
        depth_range: DepthRange::ZeroToOne,
    };
    let f = forward(camera.yaw, camera.pitch);
    let target = [
        to_f64(camera.eye.x) + to_f64(f.x),
        to_f64(camera.eye.y) + to_f64(f.y),
        to_f64(camera.eye.z) + to_f64(f.z),
        1.0,
    ];
    let vp = mat_to_f64(&camera.build_view_projection_matrix());
    let clip = apply(&vp, target);
    assert!(clip[3] != 0.0);
    assert!((clip[0] / clip[3]).abs() < 1e-4, "x {}", clip[0] / clip[3]);
    assert!((clip[1] / clip[3]).abs() < 1e-4, "y {}", clip[1] / clip[3]);
}

#[test]
fn depth_adjustment_depends_on_backend() {
    let mut camera = CameraController::new(Vec3::zero()).camera;
    camera.depth_range = DepthRange::NegOneToOne;
    let id = camera.depth_adjustment();
    assert_eq!(id.c0r0.raw, FX_ONE);
    assert_eq!(id.c2r2.raw, FX_ONE);
    assert_eq!(id.c3r2.raw, 0);
    camera.depth_range = DepthRange::ZeroToOne;
    let half = camera.depth_adjustment();
    assert_eq!(half.c2r2.raw, FX_ONE / 2);
    assert_eq!(half.c3r2.raw, FX_ONE / 2);
    assert_eq!(half.c3r3.raw, FX_ONE);
}

#[test]
fn resize_rejects_zero_area() {
    let mut s = State::new(World::new(), 800, 600);
    let aspect_before = s.world.camera_controller.camera.aspect.raw;
    s.resize(0, 600);
    assert_eq!(s.config.width, 800);
    assert_eq!(s.config.height, 600);
    assert_eq!(s.world.camera_controller.camera.aspect.raw, aspect_before);
    s.resize(800, 0);
    assert_eq!(s.config.width, 800);
    assert_eq!(s.config.height, 600);
    assert_eq!(s.world.camera_controller.camera.aspect.raw, aspect_before);
}

#[test]
fn resize_updates_config_and_aspect() {
    let mut s = State::new(World::new(), 800, 600);
    s.resize(1024, 768);
    assert_eq!(s.config.width, 1024);
    assert_eq!(s.config.height, 768);
    let aspect = to_f64(s.world.camera_controller.camera.aspect);
    assert!((aspect - 1024.0 / 768.0).abs() < 1e-9);
}

#[test]
fn surface_errors_map_to_documented_actions() {
    assert_eq!(surface_error_action(SurfaceError::Lost), FrameAction::Reconfigure);
    assert_eq!(surface_error_action(SurfaceError::Outdated), FrameAction::Reconfigure);
    assert_eq!(surface_error_action(SurfaceError::OutOfMemory), FrameAction::Exit);
    assert_eq!(surface_error_action(SurfaceError::Timeout), FrameAction::SkipFrame);
}

#[test]
fn yaw_stays_wrapped_after_large_turns() {
    let mut c = CameraController::new(Vec3::zero());
    for _ in 0..64 {
        c.rotate_camera(Vec2::new(Fx::from_int(1000), Fx { raw: 0 }));
        let yaw = to_f64(c.camera.yaw);
        assert!((-std::f64::consts::PI - 1e-6..=std::f64::consts::PI + 1e-6).contains(&yaw));
    }
}

#[test]
fn zero_intent_does_not_move() {
    let mut c = CameraController::new(Vec3::new(from_f64(1.5), from_f64(-2.0), from_f64(0.25)));
    let before = (c.camera.eye.x.raw, c.camera.eye.y.raw, c.camera.eye.z.raw);
    c.translate_camera(Vec3::zero());
    let after = (c.camera.eye.x.raw, c.camera.eye.y.raw, c.camera.eye.z.raw);
    assert_eq!(before, after);
}
