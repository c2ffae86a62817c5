[package]
name = "render_core"
version = "0.1.0"
edition = "2021"
publish = false

[dependencies]
wgpu = "24"
glfw = "*"
glm = "0.2"
image = { version = "0.25", default-features = false, features = ["png"] }
