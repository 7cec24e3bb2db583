[package]
name = "epo_ops"
version = "0.1.0"
edition = "2021"
publish = false

[dependencies]
base64 = "0.22"
serde_json = "1"
serde = { version = "1", features = ["derive"] }
reqwest = { version = "0.12", default-features = false, features = ["blocking"] }
chrono = "0.4"
rust-ini = "*"
once_cell = "1"
glob = "0.3"
log = "0.4"
env_logger = "0.11"
