[package]
name = "proxy"
version = "0.1.0"
edition = "2021"
publish = false

[dependencies]
anyhow = "*"
socket2 = "*"
tokio = { version = "*", features = ["net", "io-util", "rt"] }
uuid = { version = "*", features = ["v4"] }
