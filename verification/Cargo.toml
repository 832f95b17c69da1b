[package]
name = "mrf_rs"
version = "0.1.0"
edition = "2021"
publish = false

[dependencies]
serde = { version = "*", features = ["derive"] }
serde_json = "=1.0.151"
reqwest = { version = "=0.12.28", default-features = false, features = ["rustls-tls", "http2", "gzip", "deflate", "brotli", "stream"] }
tokio = { version = "=1.53.2", features = ["rt", "fs", "io-util", "time"] }
futures-util = "=0.3.34"
async-trait = "=0.1.92"
