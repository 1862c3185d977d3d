[package]
name = "spotify_private_api"
version = "0.1.0"
edition = "2021"
publish = false

[dependencies]
random-string = "1"
reqwest = { version = "0.11", default-features = false }
serde = { version = "1", features = ["derive"] }
serde_json = "1"
serde_with = "2"
