[package]
name = "ephesus_server"
version = "0.1.0"
edition = "2021"
publish = false

[dependencies]
serde_json = "1"
anyhow = "1"
axum = "0.8"
tokio = { version = "1", features = ["full"] }
tower-http = { version = "0.6", features = ["cors", "fs", "trace"] }
tracing = "0.1"
tracing-subscriber = { version = "0.3", features = ["env-filter"] }
