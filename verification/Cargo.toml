[package]
name = "mve"
version = "0.1.0"
edition = "2021"
publish = false

[dependencies]
bytemuck = "1"
cgmath = "=0.18.0"
env_logger = "=0.10.2"
log = "0.4"
wgpu = "=0.17.2"
winit = "=0.28.7"
