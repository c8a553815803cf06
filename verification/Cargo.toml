[package]
name = "scrotto"
version = "0.1.0"
edition = "2021"
publish = false

[dependencies]
anyhow = "*"
ashpd = "*"
clipboard = "*"
notify-rust = "*"
tokio = { version = "*", features = ["rt-multi-thread"] }
