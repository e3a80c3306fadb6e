[package]
name = "ai_gateway"
version = "0.1.0"
edition = "2021"
publish = false

[dependencies]
async-trait = "0.1"
axum = "0.7"
futures-util = "0.3"
http = "1"
once_cell = "1"
reqwest = { version = "0.12", default-features = false, features = ["stream", "json", "rustls-tls", "http2", "gzip", "brotli"] }
serde_json = "1"
tracing = "0.1"
