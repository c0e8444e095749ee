[package]
name = "drawy"
version = "0.1.0"
edition = "2021"
publish = false

[dependencies]
wgpu = { version = "0.19", default-features = false, features = ["wgsl"] }
glam = "0.24"
image = { version = "0.24", default-features = false, features = ["png", "jpeg"] }
