[package]
name = "lugnut"
version = "0.1.0"
edition = "2021"
publish = false

[dependencies]
hmac = "0.12"
sha1 = "0.10"
sha2 = "0.10"
rand = "0.8"
base64 = "0.13"
serde = { version = "1", features = ["derive"] }
serde_json = "1"
