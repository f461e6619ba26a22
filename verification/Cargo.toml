[package]
name = "web_socket_io"
version = "0.1.0"
edition = "2021"
publish = false

[dependencies]
base64 = "*"
sha1 = "*"
tokio = { version = "*", features = ["rt", "sync", "io-util", "rt-multi-thread"] }
web-socket = "*"
axum = "*"
hyper = "*"
hyper-util = { version = "*", features = ["tokio"] }
