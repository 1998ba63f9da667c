//! The shared render resources and the per-frame command log.
//!
//! A real graphics backend consumes buffer writes and draw calls through one
//! linear command stream. Here that stream is data: every drawable appends
//! `RenderCommand`s to a `RenderPass` and updates the `RenderPassData`
//! buffer model, so the contracts pin down both the order of the enqueued
//! commands and the final buffer contents.
use crate::algebra::{m4identity, m4mul, m4translation, Mat4, Vec3};
use crate::camera::{view_projection, Camera, DepthRange};
use crate::fixed::{fdiv, fint, Fx};
use vstd::prelude::*;

verus! {

/// Raw value of 2.5, the coordinate of the default camera's eye.
pub const DIAG_EYE_RAW: i64 = 10737418240;

/// Raw yaw of the default camera: minus three quarters of pi, looking back
/// along the diagonal.
pub const DIAG_YAW_RAW: i64 = -10119778278;

/// Raw pitch of the default camera: arcsine of minus one over root three,
/// looking down the diagonal.
pub const DIAG_PITCH_RAW: i64 = -2643465220;

/// One command enqueued for the graphics backend: a write to a shared
/// uniform buffer, or a state-setting or draw call appended to the open
/// render pass.
#[derive(Clone, Copy, PartialEq, Eq, Structural, Debug)]
pub enum RenderCommand {
    /// Write the view-projection matrix into the shared projection buffer.
    WriteProjectionBuffer(Mat4),
    /// Write a model transform into the shared transform buffer.
    WriteTransformBuffer(Mat4),
    /// Bind the shared cube index buffer.
    SetIndexBuffer,
    /// Bind the shared cube vertex buffer.
    SetVertexBuffer,
    /// A debug label around a draw.
    InsertDebugMarker,
    /// One indexed draw call.
    DrawIndexed { index_count: u32, base_vertex: i32, instance_count: u32 },
}

/// The drawable contract: every scene node exposes idempotent resource
/// setup and per-frame command emission against the shared pass and
/// buffers. Each implementation states in its own contract exactly which
/// commands it appends and which buffers it writes.
pub trait Renderable {
    /// Set up any resources the node itself requires before it can be
    /// drawn; safe to call again (for instance on a window resize).
    fn prepare(&mut self);

    /// Emit this node's commands into the open render pass; writes to the
    /// shared uniform buffers are part of the emitted stream.
    fn render(&self, render_pass: &mut RenderPass, render_pass_data: &mut RenderPassData);
}

/// The open render pass: the commands recorded so far, in order.
pub struct RenderPass {
    pub commands: Vec<RenderCommand>,
}

impl RenderPass {
    /// An empty pass.
    pub fn new() -> (r: RenderPass)
        ensures
            r.commands@ =~= Seq::<RenderCommand>::empty(),
    {
        RenderPass { commands: Vec::new() }
    }
}

/// The shared GPU resources, modeled by their contents: the two uniform
/// buffers every drawable writes into. The cube mesh buffers are immutable
/// and live in `vertex`.
pub struct RenderPassData {
    pub projection_buffer: Mat4,
    pub transform_buffer: Mat4,
}

/// The projection written at startup: the view projection of the default
/// camera, placed at 2.5 on each axis and looking at the origin.
pub open spec fn startup_projection(aspect: Fx) -> Mat4 {
    view_projection(default_camera(aspect))
}

/// The default camera used to seed the projection buffer.
pub open spec fn default_camera(aspect: Fx) -> Camera {
    Camera {
        eye: Vec3 {
            x: Fx { raw: DIAG_EYE_RAW },
            y: Fx { raw: DIAG_EYE_RAW },
            z: Fx { raw: DIAG_EYE_RAW },
        },
        yaw: Fx { raw: DIAG_YAW_RAW },
        pitch: Fx { raw: DIAG_PITCH_RAW },
        aspect,
        fovy: fint(75i64),
        znear: fint(1i64),
        zfar: fint(10i64),
        depth_range: DepthRange::ZeroToOne,
    }
}

/// The transform written at startup: the identity moved ten units along the
/// negative x axis.
pub open spec fn startup_transform() -> Mat4 {
    m4mul(
        m4identity(),
        m4translation(Vec3 { x: fint(-10i64), y: fint(0i64), z: fint(0i64) }),
    )
}

impl RenderPassData {
    /// The startup projection for a given aspect ratio.
    fn camera_matrix(aspect: Fx) -> (r: Mat4)
        ensures
            r == startup_projection(aspect),
    {
        let camera = Camera {
            eye: Vec3::new(
                Fx { raw: DIAG_EYE_RAW },
                Fx { raw: DIAG_EYE_RAW },
                Fx { raw: DIAG_EYE_RAW },
            ),
            yaw: Fx { raw: DIAG_YAW_RAW },
            pitch: Fx { raw: DIAG_PITCH_RAW },
            aspect,
            fovy: Fx::from_int(75),
            znear: Fx::from_int(1),
            zfar: Fx::from_int(10),
            depth_range: DepthRange::ZeroToOne,
        };
        camera.build_view_projection_matrix()
    }

    /// Seed the shared buffers as at startup: the default camera's
    /// projection for a 1024 x 768 surface, and a transform off to the side.
    pub fn new() -> (r: RenderPassData)
        ensures
            r.projection_buffer == startup_projection(fdiv(fint(1024i64), fint(768i64))),
            r.transform_buffer == startup_transform(),
    {
        let aspect = Fx::from_int(1024).div(Fx::from_int(768));
        let projection_buffer = Self::camera_matrix(aspect);
        let transform_buffer = Mat4::identity().mul(
            Mat4::from_translation(Vec3::new(Fx::from_int(-10), Fx::from_int(0), Fx::from_int(0))),
        );
        RenderPassData { projection_buffer, transform_buffer }
    }
}

} // verus!
