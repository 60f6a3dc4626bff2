[package]
name = "rayt"
version = "0.1.0"
edition = "2021"
publish = false

[dependencies]
rand = "0.8"
rayon = "1"
log = "0.4"
env_logger = "0.10"
pixels = "0.9"
winit = "0.26"
