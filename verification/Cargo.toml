[package]
name = "backend"
version = "0.1.0"
edition = "2021"
publish = false

[dependencies]
hex = "*"
hmac-sha256 = "*"
urlencoding = "*"
serde_json = "*"
serde = { version = "*", features = ["derive"] }
dotenvy = "*"
reqwest = { version = "*", features = ["blocking", "form", "json"] }
