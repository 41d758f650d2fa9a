[package]
name = "undergrowth"
version = "0.1.0"
edition = "2021"
publish = false

[dependencies]
gl = "0.14"
glutin = "0.31"
glutin-winit = "0.4"
image = { version = "0.24", default-features = false, features = ["png", "jpeg"] }
nalgebra-glm = "0.18"
noise = "0.8"
rand = { version = "0.8", features = ["small_rng"] }
rand_distr = "0.4"
tobj = "4"
winit = "0.29"
