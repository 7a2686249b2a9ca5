[package]
name = "byor"
version = "0.1.0"
edition = "2021"
publish = false

[dependencies]
futures = { version = "=0.3.34", features = ["thread-pool"] }
futures-lite = "=2.6.1"
smol = "=2.0.2"
tokio = { version = "=1.53.2", features = ["full"] }
tokio-stream = "=0.1.19"
tokio-util = { version = "=0.7.19", features = ["rt", "compat"] }
