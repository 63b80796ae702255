[package]
name = "xapp"
version = "0.1.0"
edition = "2021"
publish = false

[dependencies]
bytemuck = "1"
env_logger = "0.11"
log = "0.4"
pollster = "0.3"
sdl2 = { version = "0.37", features = ["raw-window-handle"] }
wgpu = "23"
