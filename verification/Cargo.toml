[package]
name = "tapo_exporter"
version = "0.1.0"
edition = "2021"
publish = false

[dependencies]
prometheus-client = "*"
serde = { version = "*", features = ["derive"] }
serde_yaml = "*"
tapo = "*"
tokio = { version = "*", features = ["macros", "rt-multi-thread", "time", "net", "sync"] }
axum = "*"
log = "*"
env_logger = "*"
