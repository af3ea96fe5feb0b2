[package]
name = "hui"
version = "0.1.0"
edition = "2021"
publish = false

[dependencies]
slotmap = "1"
bytemuck = "1"
glam = "*"
wgpu = { version = "26", default-features = false, features = ["wgsl"] }
winit = "0.30"
