[package]
name = "render4d"
version = "0.1.0"
edition = "2021"
publish = false

[dependencies]
ash = { version = "=0.37.3", features = ["linked"] }
ash-window = "=0.10.0"
winit = "=0.26.1"
gpu-allocator = "=0.18.0"
nalgebra = "=0.31.4"
async-std = "=1.13.2"
