[package]
name = "ash_triangle"
version = "0.1.0"
edition = "2021"
publish = false

[dependencies]
ash = "*"
ash-window = "*"
winit = "*"
vk-mem = "*"
glam = "*"
log = "*"
env_logger = "*"
