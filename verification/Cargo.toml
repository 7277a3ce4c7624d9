[package]
name = "rusty_boids"
version = "0.1.0"
edition = "2021"
publish = false

[dependencies]
rand = "*"
