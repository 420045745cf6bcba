[package]
name = "fraktaloj"
version = "0.1.0"
edition = "2021"
publish = false

[dependencies]
num = "*"
opencl3 = "*"
rayon = "*"
sdl2 = "*"
