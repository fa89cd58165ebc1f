[package]
name = "cubes"
version = "0.1.0"
edition = "2021"
publish = false

[dependencies]
bgfx-rs = "*"
glfw = "*"
glam = "*"
raw-window-handle = "*"
