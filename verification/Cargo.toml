[package]
name = "learn_opengl"
version = "0.1.0"
edition = "2021"
publish = false

[dependencies]
gl = "*"
gl_loader = "*"
glfw = "*"
image = "*"
nalgebra-glm = "*"
