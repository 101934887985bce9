[package]
name = "gateway_core"
version = "0.1.0"
edition = "2021"
publish = false

[dependencies]
chrono = { version = "0.4", default-features = false, features = ["clock"] }
indexmap = { version = "2", features = ["serde"] }
serde = { version = "1", features = ["derive"] }
serde_json = "1"
serde_tuple = "*"
serde_with = "*"
tokio = { version = "1", features = ["sync", "rt"] }
tracing = "0.1"
tracing-futures = "0.2"
uuid = { version = "1", features = ["v4"] }
