[package]
name = "fast_image_encoder"
version = "0.1.0"
edition = "2021"
publish = false

[dependencies]
image = { version = "0.24", default-features = false, features = ["png", "jpeg"] }
jpeg-encoder = "*"
safer-ffi = { version = "*", features = ["headers"] }
