[package]
name = "renderer"
version = "0.1.0"
edition = "2021"
publish = false

[dependencies]
wgpu = "0.19"
cosmic-text = "0.12"
