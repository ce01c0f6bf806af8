[package]
name = "servo_bridge"
version = "0.1.0"
edition = "2021"
publish = false

[dependencies]
askama = "0.11"
axum = { version = "0.5", features = ["ws"] }
axum-extra = { version = "0.3", features = ["spa"] }
futures = "0.3"
once_cell = "1"
serde = { version = "1", features = ["derive"] }
serde_json = "1"
tokio = { version = "1", features = ["full"] }
tracing = "0.1"
tracing-subscriber = "0.3"
