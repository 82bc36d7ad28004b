[package]
name = "circle_cam"
version = "0.1.0"
edition = "2021"
publish = false

[dependencies]
nokhwa = { version = "0.9", default-features = false }
pixels = "0.9"
winit = "0.26"
