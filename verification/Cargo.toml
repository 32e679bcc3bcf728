[package]
name = "electrum_client"
version = "0.1.0"
edition = "2021"
publish = false

[dependencies]
bitcoin = { version = "0.23", features = ["use-serde"] }
serde = { version = "1", features = ["derive"] }
serde_json = "1"
