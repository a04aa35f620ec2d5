[package]
name = "grok_oauth"
version = "0.1.0"
edition = "2021"
publish = false

[dependencies]
serde_json = "1"
url = "2"
tokio = { version = "1", features = ["macros"] }
