[package]
name = "speedtest-controller"
version = "0.1.0"
edition = "2021"
publish = false

[dependencies]
serde = { version = "*", features = ["derive"] }
serde_json = "*"
url = "*"
jsonrpsee = { version = "*", features = ["full"] }
tokio = { version = "*", features = ["full"] }
tokio-util = { version = "*", features = ["codec"] }
futures = "*"
async-trait = "*"
anyhow = "*"
clap = { version = "*", features = ["derive"] }
config = "*"
env_logger = "*"
log = "*"
thiserror = "*"
