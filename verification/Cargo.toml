[package]
name = "render_core"
version = "0.1.0"
edition = "2021"
publish = false

[dependencies]
env_logger = "=0.11.11"
futures = "=0.3.34"
wgpu = "=30.0.1"
winit = { version = "=0.30.13", default-features = false, features = ["rwh_06", "x11"] }
