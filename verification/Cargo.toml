[package]
name = "aizasy"
version = "0.1.0"
edition = "2021"
publish = false

[dependencies]
axum = "*"
clap = { version = "*", features = ["derive", "env"] }
futures-util = "*"
reqwest = { version = "*", default-features = false, features = ["rustls-tls", "stream", "socks", "http2"] }
tokio = { version = "*", features = ["full"] }
tracing = "*"
tracing-subscriber = { version = "*", features = ["env-filter"] }
