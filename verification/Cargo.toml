[package]
name = "async-bulkhead"
version = "0.1.0"
edition = "2021"
publish = false

[dependencies]
thiserror = "=1.0.69"
tokio = { version = "=1.54.1", features = ["rt", "sync", "time"] }
