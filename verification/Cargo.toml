[package]
name = "echo_webhook"
version = "0.1.0"
edition = "2021"
publish = false

[dependencies]
line_bot_sdk = "*"
serde_json = "*"
serde = { version = "*", features = ["derive"] }
actix-web = "*"
dotenv = "*"
env_logger = "*"
log = "*"
