[package]
name = "cyw43"
version = "0.1.0"
edition = "2021"
publish = false

[dependencies]
embassy-futures = "*"
embassy-net-driver-channel = "*"
embassy-sync = "*"
embassy-time = { version = "*", features = ["std"] }
embedded-hal = "*"
