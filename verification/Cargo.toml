[package]
name = "dial9_telemetry"
version = "0.1.0"
edition = "2021"
publish = false

[dependencies]
aws-sdk-s3 = { version = "1", default-features = false }
libc = "0.2"
metrique-writer = "*"
tokio = { version = "1", features = ["rt-multi-thread", "sync", "time"] }
tracing = "0.1"
