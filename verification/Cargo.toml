[package]
name = "chat_plays_chess"
version = "0.1.0"
edition = "2021"
publish = false

[dependencies]
chess = "*"
rand = "*"
tokio = { version = "*", features = ["full"] }
serde = { version = "*", features = ["derive"] }
serde_json = "*"
lichess-api = "*"
reqwest = "*"
crossbeam-channel = "*"
log = "*"
env_logger = "*"
async-std = "*"
thiserror = "*"
