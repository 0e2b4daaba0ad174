[package]
name = "shading"
version = "0.1.0"
edition = "2021"
publish = false

[dependencies]
rand = "=0.8.8"
nalgebra-glm = "=0.21.0"
