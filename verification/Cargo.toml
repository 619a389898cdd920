[package]
name = "streamchat"
version = "0.1.0"
edition = "2021"
publish = false

[dependencies]
tokio = { version = "*", features = ["rt", "rt-multi-thread", "macros", "time", "sync"] }
reqwest = { version = "*", default-features = false }
serde = "*"
serde_json = "*"
