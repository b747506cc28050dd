[package]
name = "swaydgets"
version = "0.1.0"
edition = "2021"
publish = false

[dependencies]
swayipc = "*"
serde = { version = "*", features = ["derive"] }
toml = "*"
dirs = "*"
log = "*"
env_logger = "*"
