[package]
name = "event_relay"
version = "0.1.0"
edition = "2021"
publish = false

[dependencies]
async-broadcast = "*"
async-std = { version = "*", features = ["attributes"] }
clap = { version = "*", features = ["derive"] }
serde = { version = "*", features = ["derive"] }
tide = "*"
