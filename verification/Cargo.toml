[package]
name = "render_core"
version = "0.1.0"
edition = "2021"
publish = false

[dependencies]
bytemuck = "1"
peniko = "0.1"
pollster = "0.3"
rand = "0.8"
wgpu = "22"
winit = "0.30"
