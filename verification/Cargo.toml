[package]
name = "pantry"
version = "0.1.0"
edition = "2021"
publish = false

[dependencies]
uuid = { version = "=1.29.0", features = ["v4", "v5"] }
url = "=2.5.8"
base64 = "=0.21.7"
rand = "=0.8.8"
tokio-util = "=0.7.20"
tokio = { version = "=1.54.1", features = ["full"] }
serde = { version = "=1.0.229", features = ["derive"] }
serde_json = "=1.0.154"
axum = "=0.6.20"
hyper = { version = "=0.14.32", features = ["full"] }
hyperlocal = "=0.8.0"
chrono = { version = "=0.4.45", features = ["serde"] }
diesel = { version = "=2.3.14", features = ["sqlite", "r2d2", "chrono"] }
dashmap = "=5.5.3"
log = "=0.4.35"
env_logger = "=0.10.2"
futures-util = "=0.3.34"
tokio-stream = "=0.1.19"
reqwest = { version = "=0.11.27", default-features = false, features = ["stream", "json"] }
