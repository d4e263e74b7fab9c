[package]
name = "gfx_frame"
version = "0.1.0"
edition = "2021"
publish = false

[dependencies]
ash = "=0.38.0"
vk-mem = "=0.5.0"
winit = "=0.30.13"
raw-window-handle = "=0.6.2"
nalgebra = "=0.35.0"
futures = { version = "=0.3.34", features = ["thread-pool"] }
log = "=0.4.34"
simplelog = "=0.12.2"
array-init = "=2.1.0"
memoffset = "=0.9.1"
