[package]
name = "pin_relay"
version = "0.1.0"
edition = "2021"
publish = false

[dependencies]
serde_json = "*"
tokio = { version = "*", default-features = false, features = ["macros", "rt", "net"] }
axum = "*"
reqwest = { version = "*", default-features = false, features = ["multipart"] }
clap = { version = "*", features = ["derive", "env"] }
hyper = "*"
