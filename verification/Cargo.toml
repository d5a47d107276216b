[package]
name = "bds_enhancer"
version = "0.1.0"
edition = "2021"
publish = false

[dependencies]
json = "0.12"
regex = "1"
serde = { version = "1", features = ["derive"] }
serde_json = "1"
