[package]
name = "tls_accept"
version = "0.1.0"
edition = "2021"
publish = false

[dependencies]
rustls = "0.21"
tokio = { version = "1", features = ["net", "rt", "signal", "io-util", "macros"] }
tokio-rustls = "0.24"
futures = "0.3"
log = "0.4"
