[package]
name = "rsstoat"
version = "1.4.0"
edition = "2021"
publish = false

[dependencies]
serde = { version = "=1.0.229", features = ["derive"] }
serde_json = "=1.0.154"
tokio = { version = "=1.54.1", features = ["sync"] }
discord-rich-presence = "=1.1.0"
auto-launch = "=0.5.0"
url = "=2.5.8"
