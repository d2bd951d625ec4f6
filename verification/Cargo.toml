[package]
name = "kv"
version = "0.1.0"
edition = "2021"
publish = false

[dependencies]
axum = { version = "0.7", features = ["ws"] }
axum-extra = { version = "0.9", features = ["typed-header"] }
bytes = "1"
futures = "0.3"
headers = "0.4"
parking_lot = "0.12"
thiserror = "1"
tokio = { version = "1", features = ["macros", "net", "rt-multi-thread", "signal", "sync", "time"] }
tower = { version = "0.5", features = ["limit", "load-shed", "timeout", "util"] }
tower-http = { version = "0.6", features = ["compression-gzip", "cors", "limit", "trace"] }
tracing = "0.1"
tracing-subscriber = "0.3"
