[package]
name = "weather"
version = "0.1.0"
edition = "2021"
publish = false

[dependencies]
hyper = { version = "0.14", features = ["client", "http1", "tcp"] }
hyper-tls = "0.5"
rustc-serialize = "0.3"
tokio = { version = "1", features = ["rt", "net", "time"] }
