[package]
name = "model_viewer"
version = "0.1.0"
edition = "2021"
publish = false

[dependencies]
anyhow = "1"
bytemuck = { version = "1", features = ["derive"] }
env_logger = "0.10"
glam = { version = "0.24", features = ["rand"] }
glfw = "0.51"
image = "0.24"
log = "0.4"
rand = { version = "0.8", features = ["small_rng"] }
raw-window-handle = "0.5"
tobj = "3"
