[package]
name = "vnstat-rs-api"
version = "0.1.0"
edition = "2021"
publish = false

[dependencies]
anyhow = "=1.0.104"
async-stream = "=0.3.6"
axum = "=0.8.9"
cached = { version = "=4.0.3", features = ["async"] }
clap = { version = "=4.6.7", features = ["derive"] }
dashmap = "=6.2.1"
futures-util = "=0.3.34"
log = "=0.4.34"
serde = { version = "=1.0.229", features = ["derive"] }
serde_json = "=1.0.154"
simplelog = { version = "=0.12.2", features = ["ansi_term"] }
time = { version = "=0.3.55", features = ["local-offset"] }
tokio = { version = "=1.54.1", features = ["full"] }
tokio-util = "=0.7.20"
toml = "=0.8.23"
