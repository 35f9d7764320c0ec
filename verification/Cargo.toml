[package]
name = "texcolor"
version = "0.1.0"
edition = "2021"
publish = false

[dependencies]
image = "*"
nalgebra = "*"
rand = { version = "*", features = ["small_rng"] }
