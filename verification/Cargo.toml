[package]
name = "monoloop_loop"
version = "0.1.0"
edition = "2021"
publish = false

[dependencies]
serde_json = "1"
uuid = { version = "1", features = ["v4"] }
tokio = { version = "1", features = ["rt", "rt-multi-thread", "sync", "time", "macros", "net"] }
tokio-util = "0.7"
futures-util = "0.3"
axum = "0.8"
thiserror = "2"
