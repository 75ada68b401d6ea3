[package]
name = "warmap"
version = "0.1.0"
edition = "2021"
publish = false

[dependencies]
svg = "*"
base64 = "*"
ureq = "3"
serde = { version = "*", features = ["derive"] }
serde_json = "*"
json5 = "*"
chrono = "*"
image = "*"
log = "*"
env_logger = "*"
