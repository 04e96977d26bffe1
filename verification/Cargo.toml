[package]
name = "hutton32_gpu"
version = "0.1.0"
edition = "2021"
publish = false

[dependencies]
image = { version = "*", default-features = false, features = ["png"] }
wgpu = "*"
bytemuck = { version = "*", features = ["derive"] }
pollster = "*"
futures-intrusive = "*"
