[package]
name = "restrictions"
version = "0.1.0"
edition = "2021"
publish = false

[dependencies]
ipnet = { version = "2", features = ["serde"] }
regex = "1"
serde = { version = "1", features = ["derive"] }
