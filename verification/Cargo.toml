[package]
name = "wgpu_interop"
version = "0.1.0"
edition = "2021"
publish = false

[dependencies]
ash = "0.38"
log = "0.4"
parking_lot = "0.12"
wgpu-types = "27"
wgpu-core = { version = "27", features = ["vulkan"] }
wgpu-hal = { version = "27", features = ["vulkan"] }
