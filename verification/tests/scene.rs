//! Chunks, voxels, the world and the per-frame command stream.
use mve::algebra::{Mat4, Quat, Vec3};
use mve::chunk::Chunk;
use mve::fixed::{Fx, FX_ONE};
use mve::input_controller::InputController;
use mve::renderable::{RenderCommand, RenderPass, RenderPassData, Renderable};
use mve::vertex::{cube_indices, cube_vertices};
use mve::voxel::Voxel;
use mve::world::World;

const SCALE: f64 = 4294967296.0;

#[test]
fn chunk_holds_edge_cubed_voxels() {
    let anchor = Vec3::new(Fx::from_int(7), Fx::from_int(-2), Fx::from_int(0));
    let chunk = Chunk::new(anchor, 3);
    assert_eq!(chunk.voxels.len(), 27);
    assert_eq!(chunk.position.x.raw, 7 * FX_ONE);
}

#[test]
fn chunk_voxels_sit_at_unique_integer_offsets() {
    let anchor = Vec3::new(Fx::from_int(7), Fx::from_int(-2), Fx::from_int(0));
    let n: usize = 3;
    let chunk = Chunk::new(anchor, n);
    let mut seen: Vec<(i64, i64, i64)> = Vec::new();
    for (i, v) in chunk.voxels.iter().enumerate() {
        let p = v.transform.position;
        // offsets are whole numbers of raw units
        let ox = p.x.raw - anchor.x.raw;
        let oy = p.y.raw - anchor.y.raw;
        let oz = p.z.raw - anchor.z.raw;
        assert_eq!(ox % FX_ONE, 0);
        assert_eq!(oy % FX_ONE, 0);
        assert_eq!(oz % FX_ONE, 0);
        let key = (ox / FX_ONE, oy / FX_ONE, oz / FX_ONE);
        let expected = (
            (i / (n * n)) as i64,
            ((i / n) % n) as i64,
            (i % n) as i64,
        );
        assert_eq!(key, expected);
        assert!(!seen.contains(&key), "duplicate offset {key:?}");
        seen.push(key);
    }
    assert_eq!(seen.len(), 27);
}

#[test]
fn chunk_of_edge_one_has_single_origin_voxel() {
    let chunk = Chunk::new(Vec3::zero(), 1);
    assert_eq!(chunk.voxels.len(), 1);
    let p = chunk.voxels[0].transform.position;
    assert_eq!((p.x.raw, p.y.raw, p.z.raw), (0, 0, 0));
}

#[test]
fn cube_mesh_shape() {
    let vs = cube_vertices();
    let is = cube_indices();
    assert_eq!(vs.len(), 24);
    assert_eq!(is.len(), 36);
    for &i in is.iter() {
        assert!((i as usize) < vs.len());
    }
    for v in vs.iter() {
        assert_eq!(v.pos_w, 1);
        assert!(v.pos_x == 1 || v.pos_x == -1);
        assert!(v.pos_y == 1 || v.pos_y == -1);
        assert!(v.pos_z == 1 || v.pos_z == -1);
        assert!(v.tex_u == 0 || v.tex_u == 1);
        assert!(v.tex_v == 0 || v.tex_v == 1);
    }
    // every face is two triangles sharing a diagonal
    for f in 0..6 {
        let t = &is[f * 6..f * 6 + 6];
        assert_eq!(t[0], t[5]);
        assert_eq!(t[2], t[3]);
    }
}

#[test]
fn voxel_render_writes_before_drawing() {
    let v = Voxel::new(Vec3::new(Fx::from_int(1), Fx::from_int(2), Fx::from_int(3)), Quat::zero());
    let mut pass = RenderPass::new();
    let mut data = RenderPassData::new();
    v.render(&mut pass, &mut data);
    assert_eq!(pass.commands.len(), 5);
    match &pass.commands[0] {
        RenderCommand::WriteTransformBuffer(m) => {
            assert_eq!(*m, v.transform.matrix());
        },
        other => panic!("expected a transform write first, got {other:?}"),
    }
    assert_eq!(pass.commands[1], RenderCommand::SetIndexBuffer);
    assert_eq!(pass.commands[2], RenderCommand::SetVertexBuffer);
    assert_eq!(pass.commands[3], RenderCommand::InsertDebugMarker);
    assert_eq!(
        pass.commands[4],
        RenderCommand::DrawIndexed { index_count: 36, base_vertex: 0, instance_count: 1 },
    );
    assert_eq!(data.transform_buffer, v.transform.matrix());
}

#[test]
fn zero_quaternion_rotation_is_identity() {
    let m = Mat4::from_quat(Quat::zero());
    assert_eq!(m, Mat4::identity());
}

#[test]
fn transform_at_origin_is_identity() {
    let v = Voxel::new(Vec3::zero(), Quat::zero());
    assert_eq!(v.transform.matrix(), Mat4::identity());
}

fn det4(m: &Mat4) -> f64 {
    let raw = m.to_raw();
    let mut a = [[0.0f64; 4]; 4];
    for c in 0..4 {
        for r in 0..4 {
            a[r][c] = raw[c * 4 + r] as f64 / SCALE;
        }
    }
    // Laplace expansion over the first row
    fn det3(m: &[[f64; 3]; 3]) -> f64 {
        m[0][0] * (m[1][1] * m[2][2] - m[1][2] * m[2][1])
            - m[0][1] * (m[1][0] * m[2][2] - m[1][2] * m[2][0])
            + m[0][2] * (m[1][0] * m[2][1] - m[1][1] * m[2][0])
    }
    let mut det = 0.0;
    for col in 0..4 {
        let mut minor = [[0.0f64; 3]; 3];
        for r in 1..4 {
            let mut cc = 0;
            for c in 0..4 {
                if c == col {
                    continue;
                }
                minor[r - 1][cc] = a[r][c];
                cc += 1;
            }
        }
        let sign = if col % 2 == 0 { 1.0 } else { -1.0 };
        det += sign * a[0][col] * det3(&minor);
    }
    det
}

#[test]
fn one_draw_cycle_fills_both_buffers() {
    // a world with one chunk of edge one at the origin, camera at (5,5,5)
    // turned to look toward the origin
    let mut world = World::new();
    world.camera_controller.camera.yaw = Fx { raw: mve::renderable::DIAG_YAW_RAW };
    world.camera_controller.camera.pitch = Fx { raw: mve::renderable::DIAG_PITCH_RAW };
    let mut pass = RenderPass::new();
    let mut data = RenderPassData::new();
    world.render(&mut pass, &mut data);

    // the projection buffer holds a valid perspective matrix
    assert_eq!(data.projection_buffer, world.camera_controller.camera.build_view_projection_matrix());
    let det = det4(&data.projection_buffer);
    assert!(det.abs() > 1e-6, "projection determinant {det}");

    // the transform buffer holds the single voxel's matrix: the identity
    // translated by the voxel position, which is the origin
    assert_eq!(data.transform_buffer, Mat4::identity());

    // the camera write comes first, then the voxel's write-then-draw
    assert_eq!(pass.commands.len(), 6);
    assert!(matches!(pass.commands[0], RenderCommand::WriteProjectionBuffer(_)));
    assert!(matches!(pass.commands[1], RenderCommand::WriteTransformBuffer(_)));
    assert!(matches!(pass.commands[5], RenderCommand::DrawIndexed { .. }));
}

#[test]
fn world_prepare_changes_nothing() {
    let mut world = World::new();
    let before: Vec<(i64, i64, i64)> = world.chunks[0]
        .voxels
        .iter()
        .map(|v| {
            let p = v.transform.position;
            (p.x.raw, p.y.raw, p.z.raw)
        })
        .collect();
    world.prepare();
    let after: Vec<(i64, i64, i64)> = world.chunks[0]
        .voxels
        .iter()
        .map(|v| {
            let p = v.transform.position;
            (p.x.raw, p.y.raw, p.z.raw)
        })
        .collect();
    assert_eq!(before, after);
}

#[test]
fn startup_buffers_are_seeded() {
    let data = RenderPassData::new();
    // the transform starts ten units down the negative x axis
    let raw = data.transform_buffer.to_raw();
    assert_eq!(raw[12], -10 * FX_ONE);
    assert_eq!(raw[0], FX_ONE);
    // the projection starts as a valid perspective matrix
    assert!(det4(&data.projection_buffer).abs() > 1e-6);
}

#[test]
fn input_controller_tracks_buttons_and_keys() {
    let mut input = InputController::new();
    assert_eq!(input.mouse.mouse_buttons, 0);
    input.engine_device_button(2, true);
    assert_eq!(input.mouse.mouse_buttons, 0b100);
    input.engine_device_button(0, true);
    assert_eq!(input.mouse.mouse_buttons, 0b101);
    input.engine_device_button(2, false);
    assert_eq!(input.mouse.mouse_buttons, 0b001);
    input.engine_key_input(Some(17), true);
    assert_eq!(input.keyboard.key_map.get(&17), Some(&true));
    input.engine_key_input(Some(17), false);
    assert_eq!(input.keyboard.key_map.get(&17), Some(&false));
    input.engine_key_input(None, true);
    assert_eq!(input.keyboard.key_map.len(), 1);
    input.engine_mouse_move(mve::algebra::Vec2::new(Fx::from_int(3), Fx::from_int(-4)));
    assert_eq!(input.mouse.mouse_delta.x.raw, 3 * FX_ONE);
}
