[package]
name = "discord_async"
version = "0.1.0"
edition = "2021"
publish = false

[dependencies]
serde = { version = "*", features = ["derive"] }
serde_json = "*"
xsalsa20poly1305 = "*"
urlencoding = "*"
tungstenite = "*"
opus = "*"
