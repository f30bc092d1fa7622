[package]
name = "framepace"
version = "0.1.0"
edition = "2021"
publish = false

[dependencies]
anyhow = "*"
cgmath = "*"
log = "*"
png = "*"
pretty_env_logger = "*"
thiserror = "*"
vulkanalia = { version = "*", features = ["libloading", "window"] }
winit = "*"
