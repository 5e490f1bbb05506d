[package]
name = "problem-details"
version = "0.1.0"
edition = "2021"
publish = false

[dependencies]
serde = { version = "1", features = ["derive"] }
serde_json = "1"
http = "1"
axum-core = "0.4"
axum = { version = "0.7", default-features = false }
