[package]
name = "webproof"
version = "0.1.0"
edition = "2021"
publish = false

[dependencies]
url = "2"
serde = { version = "1", features = ["derive"] }
serde_json = "1"
anyhow = "1"

[dev-dependencies]
hex = "0.4"
