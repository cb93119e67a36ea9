[package]
name = "seven_guis"
version = "0.1.0"
edition = "2021"
publish = false

[dependencies]
chrono = "=0.4.45"
regex = "=1.13.1"
iced = { version = "=0.8.0", features = ["tokio"] }
