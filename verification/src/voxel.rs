//! A unit drawable cube.
use crate::algebra::{Quat, Vec3};
use crate::renderable::{RenderCommand, RenderPass, RenderPassData, Renderable};
use crate::transform::{transform_matrix, Transform};
use crate::vertex::cube_indices;
use vstd::prelude::*;

verus! {

/// A voxel: one unit cube placed by its transform.
#[derive(Clone, Copy, PartialEq, Eq, Structural, Debug)]
pub struct Voxel {
    pub transform: Transform,
}

/// The commands a voxel enqueues each frame: its transform is written to
/// the shared transform buffer strictly before the one indexed draw call
/// that consumes it, with the shared cube buffers bound in between.
pub open spec fn voxel_commands(v: Voxel) -> Seq<RenderCommand> {
    seq![
        RenderCommand::WriteTransformBuffer(transform_matrix(v.transform)),
        RenderCommand::SetIndexBuffer,
        RenderCommand::SetVertexBuffer,
        RenderCommand::InsertDebugMarker,
        RenderCommand::DrawIndexed { index_count: 36, base_vertex: 0, instance_count: 1 },
    ]
}

impl Voxel {
    /// A voxel at the given position with the given rotation.
    pub fn new(position: Vec3, rotation: Quat) -> (r: Voxel)
        ensures
            r == (Voxel { transform: Transform { position, rotation } }),
    {
        Voxel { transform: Transform { position, rotation } }
    }
}

impl Renderable for Voxel {
    /// Resource setup before drawing; the voxel's mesh is shared, so this
    /// changes nothing and is idempotent.
    fn prepare(&mut self)
        ensures
            *final(self) == *old(self),
    {
    }

    /// Enqueue this voxel's draw: write its transform into the shared
    /// transform buffer, bind the shared cube mesh, and issue one indexed
    /// draw covering the full cube topology.
    fn render(&self, render_pass: &mut RenderPass, render_pass_data: &mut RenderPassData)
        ensures
            final(render_pass).commands@ =~= old(render_pass).commands@ + voxel_commands(*self),
            final(render_pass_data).transform_buffer == transform_matrix(self.transform),
            final(render_pass_data).projection_buffer == old(
                render_pass_data,
            ).projection_buffer,
    {
        let transform_mat = self.transform.matrix();
        render_pass_data.transform_buffer = transform_mat;
        render_pass.commands.push(RenderCommand::WriteTransformBuffer(transform_mat));
        render_pass.commands.push(RenderCommand::SetIndexBuffer);
        render_pass.commands.push(RenderCommand::SetVertexBuffer);
        render_pass.commands.push(RenderCommand::InsertDebugMarker);
        let index_count = cube_indices().len() as u32;
        render_pass.commands.push(
            RenderCommand::DrawIndexed { index_count, base_vertex: 0, instance_count: 1 },
        );
    }
}

} // verus!
