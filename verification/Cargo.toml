[package]
name = "vulkan_tutorial"
version = "0.1.0"
edition = "2021"
publish = false

[dependencies]
ash = "0.30"
winit = "0.28"
