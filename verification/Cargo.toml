[package]
name = "bot_core"
version = "0.1.0"
edition = "2021"
publish = false

[dependencies]
chrono = "0.4"
mongodb = { version = "1", default-features = false, features = ["sync"] }
serde = { version = "1", features = ["derive"] }
url = "2"
