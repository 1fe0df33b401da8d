[package]
name = "scop"
version = "0.1.0"
edition = "2021"
publish = false

[dependencies]
ash = "=0.38.0"
ash-window = "=0.13.0"
winit = "0.30"
glam = "*"
