[package]
name = "scrivano"
version = "0.1.0"
edition = "2021"
publish = false

[dependencies]
hound = "=3.5.1"
keyring = { version = "=3.6.3", features = ["apple-native"] }
serde = { version = "1", features = ["derive"] }
serde_json = "1"
dirs = "5"
parking_lot = "0.12"
tracing = "0.1"
cpal = "0.15"
reqwest = { version = "0.12", default-features = false, features = ["multipart", "json", "rustls-tls"] }
core-graphics = "0.24"
core-foundation = "0.10"
