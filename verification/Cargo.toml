[package]
name = "flowlapse"
version = "0.1.0"
edition = "2021"
publish = false

[dependencies]
anyhow = "1"
uuid = { version = "1", features = ["v4", "serde"] }
axum = "0.7"
chrono = { version = "0.4", features = ["serde"] }
parking_lot = "0.12"
serde = { version = "1", features = ["derive"] }
thiserror = "1"
tokio = { version = "1", features = ["full"] }
tower-http = { version = "0.5", features = ["cors", "fs", "trace"] }
tracing = "0.1"
tracing-subscriber = { version = "0.3", features = ["env-filter"] }
