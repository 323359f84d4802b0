[package]
name = "dprun"
version = "0.1.0"
edition = "2021"
publish = false

[dependencies]
tokio = { version = "*", features = ["process", "rt", "macros"] }
uuid = "*"
