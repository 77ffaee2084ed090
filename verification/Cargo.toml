[package]
name = "raytrace_pipeline"
version = "0.1.0"
edition = "2021"
publish = false

[dependencies]
anyhow = "*"
flume = "*"
image = { version = "*", default-features = false, features = ["png"] }
wgpu = { version = "*", default-features = false, features = ["wgsl"] }
