//! The root of the drawable hierarchy: all chunks, the camera and the
//! input state.
use crate::algebra::{Mat4, Vec3};
use crate::camera::{camera_commands, view_projection, Camera, DepthRange};
use crate::camera_controller::{CameraController, LOOK_SPEED_RAW};
use crate::chunk::{chunk_voxels, last_transform, voxels_commands, Chunk, CHUNK_SIZE};
use crate::fixed::{fdiv, fint, Fx};
use crate::input_controller::InputController;
use crate::voxel::Voxel;
use crate::renderable::{RenderCommand, RenderPass, RenderPassData, Renderable};
use vstd::prelude::*;

verus! {

/// A world: the chunks to draw, the camera that views them and the input
/// state that will steer the camera.
pub struct World {
    pub chunks: Vec<Chunk>,
    pub camera_controller: CameraController,
    pub input_controller: InputController,
}

/// The commands a sequence of chunks enqueues, drawn front to back.
pub open spec fn chunks_commands(cs: Seq<Chunk>) -> Seq<RenderCommand>
    decreases cs.len(),
{
    if cs.len() == 0 {
        Seq::empty()
    } else {
        chunks_commands(cs.drop_last()) + voxels_commands(cs.last().voxels@)
    }
}

/// What the shared transform buffer holds after a sequence of chunks drew.
pub open spec fn chunks_last_transform(cs: Seq<Chunk>, init: Mat4) -> Mat4
    decreases cs.len(),
{
    if cs.len() == 0 {
        init
    } else {
        last_transform(cs.last().voxels@, chunks_last_transform(cs.drop_last(), init))
    }
}

/// The commands one frame of a world enqueues: the camera's projection
/// write first, so every chunk drawn after it is consumed against the
/// current frame's matrix, then each chunk in order.
pub open spec fn world_commands(
    camera: Camera,
    cs: Seq<Chunk>,
) -> Seq<RenderCommand> {
    camera_commands(camera) + chunks_commands(cs)
}

impl World {
    /// The starting world: one chunk at the origin and a camera at five
    /// units along each axis.
    pub fn new() -> (r: World)
        ensures
            r.chunks@.len() == 1,
            r.chunks@[0].position == (Vec3 { x: Fx { raw: 0 }, y: Fx { raw: 0 }, z: Fx { raw: 0 } }),
            r.chunks@[0].voxels@ =~= chunk_voxels(
                Vec3 { x: Fx { raw: 0 }, y: Fx { raw: 0 }, z: Fx { raw: 0 } },
                CHUNK_SIZE as int,
            ),
            r.camera_controller.camera == (Camera {
                eye: Vec3 { x: fint(5i64), y: fint(5i64), z: fint(5i64) },
                yaw: Fx { raw: 0 },
                pitch: Fx { raw: 0 },
                aspect: fdiv(fint(1920i64), fint(1080i64)),
                fovy: fint(75i64),
                znear: fint(1i64),
                zfar: fint(10i64),
                depth_range: DepthRange::ZeroToOne,
            }),
            r.camera_controller.speed == (Fx { raw: LOOK_SPEED_RAW }),
            r.input_controller.mouse.mouse_buttons == 0,
            r.input_controller.keyboard.key_map@ == Map::<u32, bool>::empty(),
    {
        let origin = Vec3::zero();
        let mut chunks: Vec<Chunk> = Vec::new();
        chunks.push(Chunk::new(origin, CHUNK_SIZE));
        World {
            chunks,
            camera_controller: CameraController::new(
                Vec3::new(Fx::from_int(5), Fx::from_int(5), Fx::from_int(5)),
            ),
            input_controller: InputController::new(),
        }
    }
}

impl Renderable for World {
    /// Resource setup before drawing, forwarded to every chunk; nothing
    /// allocates, so the world is unchanged and the call is idempotent.
    fn prepare(&mut self)
        ensures
            final(self).chunks@.len() == old(self).chunks@.len(),
            forall|i: int|
                0 <= i < old(self).chunks@.len() ==> final(self).chunks@[i].position == old(
                    self,
                ).chunks@[i].position && final(self).chunks@[i].voxels@ =~= old(
                    self,
                ).chunks@[i].voxels@,
            final(self).camera_controller == old(self).camera_controller,
            final(self).input_controller == old(self).input_controller,
    {
        let mut idx: usize = 0;
        while idx < self.chunks.len()
            invariant
                self.chunks@.len() == old(self).chunks@.len(),
                forall|i: int|
                    0 <= i < old(self).chunks@.len() ==> self.chunks@[i].position == old(
                        self,
                    ).chunks@[i].position && self.chunks@[i].voxels@ =~= old(
                        self,
                    ).chunks@[i].voxels@,
                self.camera_controller == old(self).camera_controller,
                self.input_controller == old(self).input_controller,
            decreases self.chunks.len() - idx,
        {
            let chunk = &mut self.chunks[idx];
            chunk.prepare();
            idx += 1;
        }
    }

    /// Draw one frame: the camera first, so the projection buffer holds
    /// the current frame's matrix before any geometry consumes it, then
    /// each chunk in order.
    fn render(&self, render_pass: &mut RenderPass, render_pass_data: &mut RenderPassData)
        ensures
            final(render_pass).commands@ =~= old(render_pass).commands@ + world_commands(
                self.camera_controller.camera,
                self.chunks@,
            ),
            final(render_pass_data).projection_buffer == view_projection(
                self.camera_controller.camera,
            ),
            final(render_pass_data).transform_buffer == chunks_last_transform(
                self.chunks@,
                old(render_pass_data).transform_buffer,
            ),
    {
        self.camera_controller.camera.render(render_pass, render_pass_data);
        let mut idx: usize = 0;
        while idx < self.chunks.len()
            invariant
                idx <= self.chunks@.len(),
                render_pass.commands@ =~= old(render_pass).commands@ + camera_commands(
                    self.camera_controller.camera,
                ) + chunks_commands(self.chunks@.take(idx as int)),
                render_pass_data.projection_buffer == view_projection(
                    self.camera_controller.camera,
                ),
                render_pass_data.transform_buffer == chunks_last_transform(
                    self.chunks@.take(idx as int),
                    old(render_pass_data).transform_buffer,
                ),
            decreases self.chunks@.len() - idx,
        {
            let chunk = &self.chunks[idx];
            chunk.render(render_pass, render_pass_data);
            proof {
                let s = self.chunks@;
                assert(s.take(idx as int + 1).drop_last() =~= s.take(idx as int));
                assert(s.take(idx as int + 1).last() == s[idx as int]);
                assert(render_pass.commands@ =~= old(render_pass).commands@ + camera_commands(
                    self.camera_controller.camera,
                ) + chunks_commands(s.take(idx as int + 1)));
            }
            idx += 1;
        }
        proof {
            assert(self.chunks@.take(self.chunks@.len() as int) =~= self.chunks@);
        }
    }
}


/// In a voxel sequence's command stream, every indexed draw is enqueued
/// strictly after the write of the transform it consumes: four commands
/// earlier stands a transform-buffer write, and none of the three commands
/// between them writes any buffer.
pub proof fn lemma_voxels_write_before_draw(vs: Seq<Voxel>)
    ensures
        forall|k: int|
            0 <= k < voxels_commands(vs).len() && (#[trigger] voxels_commands(vs)[k])
                is DrawIndexed ==> 4 <= k && voxels_commands(vs)[k
                - 4] is WriteTransformBuffer
                && voxels_commands(vs)[k - 3] is SetIndexBuffer && voxels_commands(vs)[k
                - 2] is SetVertexBuffer && voxels_commands(vs)[k - 1] is InsertDebugMarker,
    decreases vs.len(),
{
    if vs.len() > 0 {
        lemma_voxels_write_before_draw(vs.drop_last());
    }
}

/// In a chunk sequence's command stream, every indexed draw is enqueued
/// strictly after the write of the transform it consumes.
pub proof fn lemma_chunks_write_before_draw(cs: Seq<Chunk>)
    ensures
        forall|k: int|
            0 <= k < chunks_commands(cs).len() && (#[trigger] chunks_commands(cs)[k])
                is DrawIndexed ==> 4 <= k && chunks_commands(cs)[k
                - 4] is WriteTransformBuffer,
    decreases cs.len(),
{
    if cs.len() > 0 {
        lemma_chunks_write_before_draw(cs.drop_last());
        lemma_voxels_write_before_draw(cs.last().voxels@);
    }
}

/// One frame's stream is safe to submit in order: the very first command
/// writes the projection buffer, before any geometry can consume it, and
/// every indexed draw stands strictly after the transform write it
/// consumes, with no other write in between.
pub proof fn lemma_frame_write_before_draw(camera: Camera, cs: Seq<Chunk>)
    ensures
        world_commands(camera, cs).len() > 0,
        world_commands(camera, cs)[0] is WriteProjectionBuffer,
        forall|k: int|
            0 <= k < world_commands(camera, cs).len() && (#[trigger] world_commands(
                camera,
                cs,
            )[k]) is DrawIndexed ==> 5 <= k && world_commands(camera, cs)[k
                - 4] is WriteTransformBuffer,
{
    lemma_chunks_write_before_draw(cs);
}

} // verus!
