[package]
name = "garden_core"
version = "0.1.0"
edition = "2021"
publish = false

[dependencies]
ed25519-dalek = "2"
rand = "0.8"
uuid = { version = "1", features = ["v4"] }
chrono = "0.4"
