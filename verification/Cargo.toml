[package]
name = "voxel_planet"
version = "0.1.0"
edition = "2021"
publish = false

[dependencies]
ascii = "1"
cgmath = "0.18"
rand = "0.8"
winit = "0.24"
