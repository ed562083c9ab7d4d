[package]
name = "zero2prod2"
version = "0.1.0"
edition = "2021"
publish = false

[dependencies]
validator = "*"
unicode-segmentation = "*"
uuid = { version = "*", features = ["v4"] }
chrono = "*"

[dev-dependencies]
fake = "*"
