[package]
name = "solar_system"
version = "0.1.0"
edition = "2021"
publish = false

[dependencies]
bytemuck = "*"
cgmath = "*"
image = "*"
pollster = "*"
serde = { version = "*", features = ["derive"] }
toml = "*"
wgpu = "*"
winit = "*"
