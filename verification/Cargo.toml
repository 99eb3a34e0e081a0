[package]
name = "async-stripe"
version = "0.1.0"
edition = "2021"
publish = false

[dependencies]
miniserde = "0.1"
http-types = { version = "2.12", default-features = false, features = ["hyperium_http"] }
hyper = { version = "0.14", default-features = false, features = ["client", "http1", "http2", "tcp"] }
hyper-tls = "0.5"
hyper-rustls = { version = "0.24", features = ["http2"] }
tokio = { version = "1", default-features = false, features = ["time"] }
