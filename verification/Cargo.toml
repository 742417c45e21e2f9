[package]
name = "massa"
version = "0.1.0"
edition = "2021"
publish = false

[dependencies]
humantime = "2"
parking_lot = "0.12"
lock_api = "0.4"
crossbeam = "0.8"
crossbeam-channel = "0.5"
tokio = { version = "1", features = ["full"] }
serde = { version = "1", features = ["derive"] }
serde_json = "1"
tracing = "0.1"
log = "0.4"
futures-util = "0.3"
tokio-stream = "0.1"
stderrlog = "0.5"
