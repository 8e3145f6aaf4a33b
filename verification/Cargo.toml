[package]
name = "upower"
version = "0.1.0"
edition = "2021"
publish = false

[dependencies]
zbus = "*"
tokio = { version = "1", features = ["rt", "sync", "macros"] }
futures-lite = "2"
serde = { version = "1", features = ["derive"] }
