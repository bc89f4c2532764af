[package]
name = "cds_server"
version = "0.1.0"
edition = "2021"
publish = false

[dependencies]
base64 = "0.13"
iron = "0.6"
router = "0.6"
serde = { version = "1", features = ["derive"] }
serde_json = "1"
clap = "2"
dirs = "*"
env_logger = "*"
log = "*"
