[package]
name = "cpyte_engine"
version = "0.1.0"
edition = "2021"
publish = false

[dependencies]
vulkanalia = { version = "=0.35.0", features = ["libloading", "window"] }
winit = "0.30"
nalgebra = "=0.32.6"
tobj = "=4.0.5"
image = "=0.24.9"
log = "0.4"
pretty_env_logger = "=0.5.0"
memoffset = "=0.9.1"
