[package]
name = "pixel_engine"
version = "0.1.0"
edition = "2021"
publish = false

[dependencies]
bytemuck = "*"
cpal = "*"
gl = "*"
glfw = "*"
