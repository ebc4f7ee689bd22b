[package]
name = "rustgram-ws"
version = "0.1.0"
edition = "2021"
publish = false

[dependencies]
base64 = "=0.21.7"
bytes = "=1.12.1"
futures-util = "=0.3.34"
hyper = { version = "=0.14.32", features = ["full"] }
rustgram = "0.1"
sha1 = "=0.10.7"
tokio = { version = "=1.54.1", features = ["rt"] }
tokio-tungstenite = "=0.18.0"
