[package]
name = "ibt_reader"
version = "0.1.0"
edition = "2021"
publish = false

[dependencies]
yore = "1"
serde = { version = "1", features = ["derive"] }
serde_yaml = "0.9"
