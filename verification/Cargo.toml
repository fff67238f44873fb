[package]
name = "rustvulkan"
version = "0.1.0"
edition = "2021"
publish = false

[dependencies]
ash = "0.38"
winit = { version = "0.29", default-features = false, features = ["x11", "rwh_06"] }
cgmath = "0.18"
image = { version = "0.24", default-features = false, features = ["tga"] }
tobj = "4"
glsl-to-spirv = "0.1"
libc = "0.2"
