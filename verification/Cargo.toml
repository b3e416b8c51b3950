[package]
name = "mainframer"
version = "0.1.0"
edition = "2021"
publish = false

[dependencies]
bus = "*"
clap = { version = "*", features = ["derive"] }
crossbeam-channel = "*"
serde = { version = "*", features = ["derive"] }
serde_yaml = "*"
tracing = "*"
tracing-subscriber = "*"
