[package]
name = "vulkan_renderer"
version = "0.1.0"
edition = "2021"
publish = false

[dependencies]
ash = "0.38"
ash-window = "0.13"
winit = "0.30"
glam = "0.29"
image = { version = "0.25", default-features = false, features = ["png"] }
