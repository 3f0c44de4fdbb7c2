[package]
name = "shared"
version = "0.1.0"
edition = "2021"
publish = false

[dependencies]
cobs = { version = "=0.3.0", default-features = false }
crc = "=3.4.0"
postcard = { version = "=1.1.3", default-features = false }
serde = { version = "=1.0.229", features = ["derive"] }
serde_json = "=1.0.154"
tokio = { version = "=1.54.1", features = ["macros", "rt-multi-thread", "sync", "time", "process", "net", "io-util"] }
tokio-serial = { version = "=5.5.0", default-features = false }
tokio-stream = { version = "=0.1.19", features = ["sync"] }
axum = "=0.7.9"
futures-util = "=0.3.34"
anyhow = "=1.0.104"
tracing = "=0.1.44"
tracing-subscriber = "=0.3.23"
