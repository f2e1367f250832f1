[package]
name = "async_zip"
version = "0.1.0"
edition = "2021"
publish = false

[dependencies]
tokio = { version = "1", features = ["rt", "fs", "io-util"] }
