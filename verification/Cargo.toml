[package]
name = "rhachis"
version = "0.1.0"
edition = "2021"
publish = false

[dependencies]
anyhow = "1"
bytemuck = { version = "1", features = ["derive"] }
glam = "0.21"
image = "0.24"
iter_tools = "0.1"
parking_lot = "0.12"
paste = "1"
pollster = "0.2"
proc-macro2 = "1"
quote = "1"
tobj = "3"
wgpu = "0.13"
winit = "0.27"
