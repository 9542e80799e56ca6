[package]
name = "fanout"
version = "0.1.0"
edition = "2021"
publish = false

[dependencies]
tokio = { version = "*", default-features = false, features = ["sync"] }
