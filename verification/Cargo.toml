[package]
name = "chipgame"
version = "0.1.0"
edition = "2021"
publish = false

[dependencies]
ini_core = "*"
serde = { version = "1", features = ["derive"] }
serde_json = "1"
