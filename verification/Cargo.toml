[package]
name = "gyazo_upload"
version = "0.1.0"
edition = "2021"
publish = false

[dependencies]
reqwest = { version = "*", default-features = false, features = ["multipart"] }
serde_json = "*"
