[package]
name = "vkrender"
version = "0.1.0"
edition = "2021"
publish = false

[dependencies]
ash = "=0.29.0"
sdl2 = "=0.34.5"
nalgebra-glm = "=0.9.0"
num = "=0.3.1"
obj-rs = "*"
