[package]
name = "wolfusb"
version = "0.1.0"
edition = "2021"
publish = false

[dependencies]
bytes = "1"
hmac = "0.12"
sha2 = "0.10"
bincode = { version = "2", features = ["derive"] }
rusb = "0.9"
tokio = { version = "1", features = ["full"] }
tokio-util = { version = "0.7", features = ["codec"] }
futures = "0.3"
clap = { version = "4", features = ["derive", "env"] }
env_logger = "0.11"
log = "0.4"
anyhow = "1"
thiserror = "2"
serde = { version = "1", features = ["derive"] }
serde_json = "1"
rand = "0.9"
tokio-rustls = { version = "0.26", default-features = false, features = ["ring", "tls12", "logging"] }
