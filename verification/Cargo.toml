[package]
name = "sync_service"
version = "0.1.3"
edition = "2021"
publish = false

[dependencies]
anyhow = "1"
chrono = "0.4"
env_logger = "0.11"
log = "0.4"
notify = "6"
serde = { version = "1", features = ["derive"] }
serde_json = "1"
sha1 = "0.10"
tokio = { version = "1", features = ["fs", "io-util", "sync", "time", "macros", "rt-multi-thread", "signal"] }
tokio-util = "0.7"
