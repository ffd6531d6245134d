[package]
name = "mini3d"
version = "0.1.0"
edition = "2021"
publish = false

[dependencies]
nalgebra-glm = "0.18"
bytemuck = "1"
noise = "=0.7.0"
