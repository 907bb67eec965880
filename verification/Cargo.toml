[package]
name = "cors_relay"
version = "0.1.0"
edition = "2021"
publish = false

[dependencies]
axum = "0.6"
http = "0.2"
once_cell = "1"
reqwest = "0.11"
tokio = { version = "1", features = ["macros", "rt-multi-thread"] }
url = "2"
