[package]
name = "vx220"
version = "0.1.0"
edition = "2021"
publish = false

[dependencies]
btleplug = "=0.11.8"
env_logger = "=0.10.2"
femtovg = { version = "=0.7.1", default-features = false }
futures = "=0.3.34"
gl = "=0.14.0"
glutin = "=0.30.10"
glutin-winit = "=0.3.0"
libdbus-sys = { version = "=0.2.7", features = ["vendored"] }
log = "=0.4.34"
rand = { version = "=0.8.8", features = ["small_rng"] }
raw-window-handle = "=0.5.2"
serde = { version = "=1.0.229", features = ["derive"] }
serde_yaml = "=0.9.34"
thiserror = "=1.0.69"
tokio = { version = "=1.54.1", features = ["full"] }
tokio-serial = "=5.5.0"
winit = "=0.28.7"
