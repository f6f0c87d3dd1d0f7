[package]
name = "framecore"
version = "0.1.0"
edition = "2021"
publish = false

[dependencies]
glam = "*"
vulkano = "*"
winit = "*"
