[package]
name = "wgpu_sandbox"
version = "0.1.0"
edition = "2021"
publish = false

[dependencies]
ahash = "0.8"
anyhow = "1"
bytemuck = { version = "1", features = ["derive"] }
cgmath = "0.18"
env_logger = "0.11"
log = "0.4"
pollster = "0.4"
thiserror = "2"
tobj = "4"
wgpu = "26"
winit = { version = "0.30", default-features = false, features = ["rwh_06", "x11"] }
