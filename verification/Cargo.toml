[package]
name = "rfc"
version = "0.1.0"
edition = "2021"
publish = false

[dependencies]
winit = "0.30"
serde = { version = "1", features = ["derive"] }
toml = "0.8"
dirs = "6"
log = "0.4"
env_logger = "0.11"
