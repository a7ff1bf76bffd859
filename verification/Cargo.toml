[package]
name = "tower_hyper"
version = "0.1.0"
edition = "2021"
publish = false

[dependencies]
bytes = "1"
futures = "0.3"
http = "0.2"
http-body = "0.4"
hyper = { version = "0.14", features = ["client", "http1"] }
tokio = { version = "1", features = ["io-util", "rt"] }
tower-service = "0.3"
