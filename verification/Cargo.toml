[package]
name = "hermes"
version = "0.1.0"
edition = "2021"
publish = false

[dependencies]
base64 = "0.13"
semver = { version = "1", features = ["serde"] }
serde = { version = "1", features = ["derive"] }
serde_json = "1"
