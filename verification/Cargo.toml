[package]
name = "asha"
version = "0.1.0"
edition = "2021"
publish = false

[dependencies]
bluer = "*"
cpal = "*"
futures = "*"
tokio = { version = "*", features = ["rt", "time", "io-util", "macros"] }
uuid = "*"
