[package]
name = "gbemu"
version = "0.1.0"
edition = "2021"
publish = false

[dependencies]
anyhow = "1"
log = "0.4"
env_logger = "0.10"
winit = "0.28"
winit_input_helper = "0.14"
pixels = "0.12"
