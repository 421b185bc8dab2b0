[package]
name = "chat_gateway"
version = "0.1.0"
edition = "2021"
publish = false

[dependencies]
anyhow = "=1.0.104"
axum = "=0.6.20"
chrono = "=0.4.45"
futures-util = "=0.3.34"
hyper = { version = "=0.14.32", features = ["client", "http1", "http2", "stream", "tcp"] }
hyper-tls = "=0.5.0"
prost = "=0.11.9"
qdrant-client = { version = "=1.4.0", default-features = false }
serde = { version = "=1.0.229", features = ["derive"] }
serde_json = "=1.0.154"
tiktoken-rs = "=0.5.9"
tokio = { version = "=1.54.1", features = ["macros", "rt-multi-thread", "sync"] }
tokio-stream = "=0.1.19"
tonic = { version = "=0.9.2", features = ["tls"] }
