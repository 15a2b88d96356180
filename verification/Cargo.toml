[package]
name = "mongo-client-desktop"
version = "0.1.0"
edition = "2021"
publish = false

[dependencies]
chrono = "0.4"
iced = { version = "0.8", features = ["canvas", "tokio"] }
iced_native = "0.9"
time = { version = "0.3", features = ["local-offset"] }
