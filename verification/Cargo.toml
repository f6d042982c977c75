[package]
name = "slack_client"
version = "0.1.0"
edition = "2021"
publish = false

[dependencies]
anyhow = "=1.0.104"
keyring = { version = "=3.6.3", default-features = false }
mlua = { version = "=0.12.2", features = ["lua54", "vendored", "serialize"] }
serde = { version = "=1.0.229", features = ["derive"] }
slack-morphism = { version = "=2.29.0", features = ["hyper"] }
tokio = { version = "=1.53.2", features = ["rt-multi-thread"] }
