//! The renderer state around the world: surface configuration, resize
//! handling and the per-frame error policy.
use crate::camera::Camera;
use crate::fixed::fratio;
use crate::renderable::{RenderPass, RenderPassData, Renderable};
use crate::world::World;
use vstd::prelude::*;

verus! {

/// What the graphics backend reported when a frame could not begin.
#[derive(Clone, Copy, PartialEq, Eq, Structural, Debug)]
pub enum SurfaceError {
    /// The surface was lost and must be rebuilt.
    Lost,
    /// The surface no longer matches the window and must be reconfigured.
    Outdated,
    /// The backend is out of memory; the render loop cannot continue.
    OutOfMemory,
    /// The frame timed out; skip it and try again next frame.
    Timeout,
}

/// What the render loop does about a surface error.
#[derive(Clone, Copy, PartialEq, Eq, Structural, Debug)]
pub enum FrameAction {
    /// Reconfigure the surface with the last known size and retry next
    /// frame.
    Reconfigure,
    /// Skip this frame; state is unchanged.
    SkipFrame,
    /// Stop the render loop.
    Exit,
}

/// The frame-error policy: lost or outdated surfaces are recoverable by
/// reconfiguration, a timeout by skipping the frame, and out-of-memory is
/// fatal.
pub open spec fn action_for(e: SurfaceError) -> FrameAction {
    match e {
        SurfaceError::Lost => FrameAction::Reconfigure,
        SurfaceError::Outdated => FrameAction::Reconfigure,
        SurfaceError::OutOfMemory => FrameAction::Exit,
        SurfaceError::Timeout => FrameAction::SkipFrame,
    }
}

/// Decide what the render loop does about a surface error.
pub fn surface_error_action(e: SurfaceError) -> (r: FrameAction)
    ensures
        r == action_for(e),
{
    match e {
        SurfaceError::Lost => FrameAction::Reconfigure,
        SurfaceError::Outdated => FrameAction::Reconfigure,
        SurfaceError::OutOfMemory => FrameAction::Exit,
        SurfaceError::Timeout => FrameAction::SkipFrame,
    }
}

/// The drawable surface's configuration: its size in pixels.
#[derive(Clone, Copy, PartialEq, Eq, Structural, Debug)]
pub struct SurfaceConfig {
    pub width: u32,
    pub height: u32,
}

/// The renderer state: the world and the surface configuration. The
/// windowing and GPU handles live with the surrounding graphics layer.
pub struct State {
    pub world: World,
    pub config: SurfaceConfig,
}

impl State {
    /// Wrap a world with an initial surface size.
    pub fn new(world: World, width: u32, height: u32) -> (r: State)
        ensures
            r.world == world,
            r.config == (SurfaceConfig { width, height }),
    {
        State { world, config: SurfaceConfig { width, height } }
    }

    /// Apply a resize notification: a zero-area size is rejected and
    /// nothing changes; otherwise the surface configuration takes the new
    /// size and the camera's aspect ratio becomes width over height.
    pub fn resize(&mut self, width: u32, height: u32)
        ensures
            (width > 0 && height > 0) ==> {
                &&& final(self).config == (SurfaceConfig { width, height })
                &&& final(self).world.camera_controller.camera == (Camera {
                    aspect: fratio(width, height),
                    ..old(self).world.camera_controller.camera
                })
                &&& final(self).world.camera_controller.speed == old(
                    self,
                ).world.camera_controller.speed
                &&& final(self).world.chunks == old(self).world.chunks
                &&& final(self).world.input_controller == old(self).world.input_controller
            },
            !(width > 0 && height > 0) ==> *final(self) == *old(self),
    {
        if width > 0 && height > 0 {
            self.config.width = width;
            self.config.height = height;
            self.world.camera_controller.camera.aspect = crate::fixed::Fx::from_ratio(
                width,
                height,
            );
        }
    }

    /// The window-event hook; no window event steers the renderer state
    /// directly, so nothing is consumed.
    pub fn input(&mut self) -> (r: bool)
        ensures
            r == false,
            *final(self) == *old(self),
    {
        false
    }

    /// The per-frame update step; nothing is simulated yet.
    pub fn update(&mut self)
        ensures
            *final(self) == *old(self),
    {
    }

    /// Record one frame's commands: the world draws against the shared
    /// pass and buffers.
    pub fn render(&self, render_pass: &mut RenderPass, render_pass_data: &mut RenderPassData)
        ensures
            final(render_pass).commands@ =~= old(render_pass).commands@
                + crate::world::world_commands(
                self.world.camera_controller.camera,
                self.world.chunks@,
            ),
            final(render_pass_data).projection_buffer == crate::camera::view_projection(
                self.world.camera_controller.camera,
            ),
            final(render_pass_data).transform_buffer == crate::world::chunks_last_transform(
                self.world.chunks@,
                old(render_pass_data).transform_buffer,
            ),
    {
        self.world.render(render_pass, render_pass_data);
    }
}

} // verus!
