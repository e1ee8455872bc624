[package]
name = "doorlock"
version = "0.1.0"
edition = "2021"
publish = false

[dependencies]
anyhow = "*"
argon2 = { version = "*", features = ["std"] }
axum = "*"
chrono = "*"
once_cell = "*"
rppal = "*"
serde = { version = "*", features = ["derive"] }
tokio = { version = "*", features = ["rt-multi-thread", "macros", "sync", "time", "net"] }
