[package]
name = "metw_accounts"
version = "0.1.0"
edition = "2021"
publish = false

[dependencies]
base64 = "0.22"
chrono = "0.4"
tokio = { version = "1", features = ["sync", "time", "rt", "macros"] }
validator = "0.20"

[dev-dependencies]
regex = "1"
