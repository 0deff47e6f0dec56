[package]
name = "gpu_image"
version = "0.1.0"
edition = "2021"
publish = false

[dependencies]
gfx-hal = "0.4"
rendy-memory = "0.5"
