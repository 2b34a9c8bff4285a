[package]
name = "postmark_client"
version = "0.1.0"
edition = "2021"
publish = false

[dependencies]
base64 = "*"
blake3 = "*"
mime_guess = "*"
serde_json = "*"
reqwest = { version = "*", default-features = false }
