[package]
name = "rend3"
version = "0.1.0"
edition = "2021"
publish = false

[dependencies]
wgpu = { version = "*", default-features = false }
