[package]
name = "triangle"
version = "0.1.0"
edition = "2021"
publish = false

[dependencies]
wgpu = { version = "0.19", default-features = false, features = ["wgsl"] }
bytemuck = { version = "1", features = ["derive"] }
