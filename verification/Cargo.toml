[package]
name = "chat_relay"
version = "0.1.0"
edition = "2021"
publish = false

[dependencies]
anyhow = "*"
futures = "*"
tokio = { version = "*", features = ["rt-multi-thread", "net", "sync", "macros", "io-util", "time"] }
tokio-util = { version = "*", features = ["codec"] }
