[package]
name = "server_api"
version = "0.1.0"
edition = "2021"
publish = false

[dependencies]
hyper = { version = "=0.14.32", features = ["http1", "server"] }
uuid = { version = "=1.29.1", features = ["v4"] }
base64 = "=0.13.1"
captcha = "=0.0.9"
sentc-crypto-common = "=0.12.0"
rustgram = "=0.3.1"
serde = { version = "=1.0.229", features = ["derive"] }
tokio = { version = "=1.54.1", features = ["macros", "rt-multi-thread"] }
