[package]
name = "snuff"
version = "0.1.0"
edition = "2021"
publish = false

[dependencies]
time = "0.1"
image = "0.21"
glium = "0.23"
nalgebra-glm = "0.2"
notify = "4.0"
rodio = "0.8"
rand = "0.6"
