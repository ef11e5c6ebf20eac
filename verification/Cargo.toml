[package]
name = "order_lookup"
version = "0.1.0"
edition = "2021"
publish = false

[dependencies]
axum = "*"
tokio = { version = "*", features = ["full"] }
tracing = "*"
tracing-subscriber = "*"

[dev-dependencies]
serde_json = "*"
