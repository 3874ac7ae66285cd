[package]
name = "shader_view"
version = "0.1.0"
edition = "2021"
publish = false

[dependencies]
eframe = { version = "=0.21.3", default-features = false, features = ["wgpu", "persistence", "default_fonts"] }
egui = "=0.21.0"
egui-wgpu = "=0.21.0"
wgpu = { version = "=0.15.1", features = ["spirv"] }
serde = { version = "=1.0.229", features = ["derive"] }
spirv-builder = { version = "=0.11.0", default-features = false, features = ["watch"] }
spirv-std = "=0.11.0"
tracing-subscriber = "=0.3.23"

[dev-dependencies]
bytemuck = "=1.25.2"
