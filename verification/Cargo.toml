[package]
name = "tumblr_api"
version = "0.1.0"
edition = "2021"
publish = false

[dependencies]
oauth-client = "=0.8.0"
rand = "=0.8.8"
time = "=0.3.55"
reqwest = { version = "=0.11.27", features = ["blocking", "multipart", "json"] }
serde = { version = "=1.0.229", features = ["derive"] }
serde_json = "=1.0.154"
failure = "=0.1.8"
