[package]
name = "aphrodite"
version = "0.1.0"
edition = "2021"
publish = false

[dependencies]
bytemuck = { version = "=1.25.2", features = ["derive"] }
color-eyre = "0.6"
env_logger = "=0.10.2"
pollster = "=0.3.0"
raw-window-handle = "=0.5.2"
smithay-client-toolkit = { version = "=0.17.0", default-features = false, features = ["calloop"] }
wayland-backend = { version = "=0.1.2", features = ["client_system", "dlopen"] }
wayland-client = "=0.30.2"
wgpu = "=0.16.3"
