[package]
name = "model_viewer"
version = "0.1.0"
edition = "2021"
publish = false

[dependencies]
anyhow = "1"
asset-importer = "*"
bytemuck = { version = "1", features = ["derive"] }
cgmath = "0.18"
egui = "*"
egui-wgpu = "*"
egui-winit = "*"
env_logger = "*"
image = { version = "*", default-features = false, features = ["hdr"] }
log = "0.4"
pollster = "*"
wgpu = "*"
winit = "0.30"
