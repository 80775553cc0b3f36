[package]
name = "monitor_system_service"
version = "0.1.0"
edition = "2021"
publish = false

[dependencies]
axum = { version = "0.7", features = ["ws"] }
base64 = "0.22"
cpal = "0.15"
crossbeam-channel = "0.5"
futures = "0.3"
opencv = "*"
serde = { version = "1", features = ["derive"] }
serde_json = "1"
sys-info = "0.9"
tokio = { version = "1", features = ["full"] }
tower-http = { version = "0.5", features = ["cors"] }
tracing-subscriber = { version = "0.3", features = ["env-filter"] }
uuid = { version = "1", features = ["v4"] }
