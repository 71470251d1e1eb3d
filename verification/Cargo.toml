[package]
name = "patchgl"
version = "0.1.0"
edition = "2021"
publish = false

[dependencies]
rand = "=0.4.6"
yaml-rust = "=0.4.5"
xml-rs = "=0.8.29"
rusttype = { version = "=0.5.2", features = ["gpu_cache"] }
unicode-normalization = "=0.1.26"
arrayvec = "=0.4.12"
glium = "=0.29.1"
