[package]
name = "femtovg"
version = "0.1.0"
edition = "2021"
publish = false

[dependencies]
encase = "0.10"
imgref = "1"
rgb = { version = "0.8", features = ["bytemuck"] }
wgpu = { version = "23", default-features = false, features = ["wgsl"] }
