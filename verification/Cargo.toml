[package]
name = "terra_rust_bot"
version = "0.1.0"
edition = "2021"
publish = false

[dependencies]
rust_decimal = "*"
chrono = "*"
serde = { version = "*", features = ["derive"] }
serde_json = "*"
anyhow = "*"
tokio = { version = "*", features = ["rt", "macros", "sync", "time"] }
