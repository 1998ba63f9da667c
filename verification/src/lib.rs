//! A verified model of a small voxel scene renderer.
//!
//! The crate keeps a hierarchical world of drawable voxel geometry (world,
//! chunk, voxel), a first-person camera driven by yaw and pitch, and a model
//! of the shared GPU buffers that every drawable writes into once per frame.
//! All arithmetic is saturating fixed-point, so every transform and every
//! view-projection matrix has an exact contract.

pub mod algebra;
pub mod camera;
pub mod camera_controller;
pub mod chunk;
pub mod fixed;
pub mod input_controller;
pub mod renderable;
pub mod state;
pub mod transform;
pub mod trig;
pub mod vertex;
pub mod voxel;
pub mod world;
