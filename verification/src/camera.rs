//! The first-person camera and its view-projection matrix.
use crate::algebra::{
    m4identity, m4look_to_rh, m4mul, m4perspective, v3normalize, Mat4, Vec3,
};
use crate::fixed::{fmul, Fx, FX_ONE};
use crate::renderable::{RenderCommand, RenderPass, RenderPassData, Renderable};
use crate::trig::{fcos, fsin, sin_cos};
use vstd::prelude::*;

verus! {

/// Raw value of one half, the depth compression factor.
pub const DEPTH_HALF_RAW: i64 = 2147483648;

/// The depth range the target graphics backend expects of clip space. The
/// projection itself maps depth onto `[-1, 1]`; a backend that consumes
/// `[0, 1]` gets an extra compression matrix in front.
#[derive(Clone, Copy, PartialEq, Eq, Structural, Debug)]
pub enum DepthRange {
    /// Clip-space depth spans `[-1, 1]`.
    NegOneToOne,
    /// Clip-space depth spans `[0, 1]`.
    ZeroToOne,
}

/// The clip-space adjustment matrix for a backend's depth range: the
/// identity, or the map sending z to z / 2 + w / 2.
pub open spec fn depth_adjust(d: DepthRange) -> Mat4 {
    match d {
        DepthRange::NegOneToOne => m4identity(),
        DepthRange::ZeroToOne => Mat4 {
            c2r2: Fx { raw: DEPTH_HALF_RAW },
            c3r2: Fx { raw: DEPTH_HALF_RAW },
            ..m4identity()
        },
    }
}

/// A camera: an eye position, a yaw and pitch orientation, and the
/// parameters of a perspective projection.
#[derive(Clone, Copy, PartialEq, Eq, Structural, Debug)]
pub struct Camera {
    pub eye: Vec3,
    pub yaw: Fx,
    pub pitch: Fx,
    pub aspect: Fx,
    /// Vertical field of view, in degrees.
    pub fovy: Fx,
    pub znear: Fx,
    pub zfar: Fx,
    /// The depth convention of the target backend.
    pub depth_range: DepthRange,
}

/// The camera's forward direction, derived from yaw and pitch alone.
pub open spec fn forward_dir(c: Camera) -> Vec3 {
    Vec3 {
        x: fmul(fcos(c.pitch), fcos(c.yaw)),
        y: fsin(c.pitch),
        z: fmul(fcos(c.pitch), fsin(c.yaw)),
    }
}

/// The camera's view-projection matrix: the backend depth adjustment,
/// composed with the perspective projection, composed with the view looking
/// from the eye along the forward direction with up along the world y axis.
pub open spec fn view_projection(c: Camera) -> Mat4 {
    let view = m4look_to_rh(
        c.eye,
        v3normalize(forward_dir(c)),
        Vec3 { x: Fx { raw: 0 }, y: Fx { raw: FX_ONE }, z: Fx { raw: 0 } },
    );
    let proj = m4perspective(c.fovy, c.aspect, c.znear, c.zfar);
    m4mul(m4mul(depth_adjust(c.depth_range), proj), view)
}

/// The commands the camera enqueues each frame: one projection write.
pub open spec fn camera_commands(c: Camera) -> Seq<RenderCommand> {
    seq![RenderCommand::WriteProjectionBuffer(view_projection(c))]
}

impl Camera {
    /// The backend depth adjustment matrix for this camera.
    pub fn depth_adjustment(&self) -> (r: Mat4)
        ensures
            r == depth_adjust(self.depth_range),
    {
        match self.depth_range {
            DepthRange::NegOneToOne => Mat4::identity(),
            DepthRange::ZeroToOne => {
                let half = Fx { raw: DEPTH_HALF_RAW };
                let m = Mat4::identity();
                Mat4 { c2r2: half, c3r2: half, ..m }
            },
        }
    }

    /// Derive the view-projection matrix from the camera's current state.
    pub fn build_view_projection_matrix(&self) -> (r: Mat4)
        ensures
            r == view_projection(*self),
    {
        let (sin_pitch, cos_pitch) = sin_cos(self.pitch);
        let (sin_yaw, cos_yaw) = sin_cos(self.yaw);
        let dir = Vec3::new(cos_pitch.mul(cos_yaw), sin_pitch, cos_pitch.mul(sin_yaw));
        let view = Mat4::look_to_rh(self.eye, dir.normalize(), Vec3::unit_y());
        let proj = Mat4::perspective(self.fovy, self.aspect, self.znear, self.zfar);
        self.depth_adjustment().mul(proj).mul(view)
    }
}

impl Renderable for Camera {
    /// Resource setup before drawing; the camera owns no GPU resources, so
    /// this changes nothing and is idempotent.
    fn prepare(&mut self)
        ensures
            *final(self) == *old(self),
    {
    }

    /// Enqueue this frame's projection write: recompute the view-projection
    /// matrix and store it in the shared projection buffer.
    fn render(&self, render_pass: &mut RenderPass, render_pass_data: &mut RenderPassData)
        ensures
            final(render_pass).commands@ =~= old(render_pass).commands@ + camera_commands(*self),
            final(render_pass_data).projection_buffer == view_projection(*self),
            final(render_pass_data).transform_buffer == old(render_pass_data).transform_buffer,
    {
        let project_matrix = self.build_view_projection_matrix();
        render_pass_data.projection_buffer = project_matrix;
        render_pass.commands.push(RenderCommand::WriteProjectionBuffer(project_matrix));
    }
}

} // verus!
