[package]
name = "quadbatch"
version = "0.1.0"
edition = "2021"
publish = false

[dependencies]
bytemuck = "*"
cgmath = "*"
env_logger = "*"
futures = "*"
rodio = "*"
wgpu = "*"
winit = "*"
