[package]
name = "native_svc"
version = "0.1.0"
edition = "2021"
publish = false

[dependencies]
embedded-svc = "*"
http-body-util = "*"
hyper = { version = "*", features = ["client", "http1"] }
hyper-tls = "*"
hyper-util = { version = "*", features = ["client-legacy", "http1", "tokio"] }
thiserror = "*"
tokio = { version = "*", features = ["rt-multi-thread"] }
