[package]
name = "typebind"
version = "0.1.0"
edition = "2021"
publish = false

[dependencies]
regex = "*"
validator = "*"
serde = { version = "*", features = ["derive"] }
chrono = "*"
