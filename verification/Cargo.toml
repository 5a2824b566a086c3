[package]
name = "nif_render"
version = "0.1.0"
edition = "2021"
publish = false

[dependencies]
bytemuck = "1"
glam = { version = "0.29", features = ["bytemuck"] }
pollster = "0.4"
wgpu = "24"
