[package]
name = "morphz-web"
version = "0.1.0"
edition = "2021"
publish = false

[dependencies]
axum = { version = "=0.7.9", features = ["ws"] }
base64 = "=0.22.1"
chrono = { version = "=0.4.45", features = ["serde"] }
futures-util = "=0.3.34"
serde = { version = "=1.0.229", features = ["derive"] }
serde_json = "=1.0.154"
sha2 = "=0.10.9"
tokio = { version = "=1.54.1", features = ["full"] }
tower-http = { version = "=0.6.11", features = ["compression-gzip", "cors"] }
tracing = "=0.1.44"
zeroize = "=1.9.1"
