[package]
name = "device_monitor"
version = "0.1.0"
edition = "2021"
publish = false

[dependencies]
ping-rs = "*"
serde = { version = "1", features = ["derive"] }
serde_json = "1"
tokio = { version = "1", features = ["rt-multi-thread", "macros", "time", "sync"] }
