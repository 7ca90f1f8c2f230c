[package]
name = "fsr2wgpu"
version = "0.1.0"
edition = "2021"
publish = false

[dependencies]
arrayvec = "*"
ash = "*"
bitflags = "*"
glam = "*"
thiserror = "*"
wgpu = "*"
wgpu-core = { version = "*", features = ["vulkan"] }
wgpu-hal = { version = "*", features = ["vulkan"] }
