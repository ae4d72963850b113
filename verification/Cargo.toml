[package]
name = "quiz_packets"
version = "0.1.0"
edition = "2021"
publish = false

[dependencies]
axum = "*"
serde = { version = "*", features = ["derive"] }
shuttle-axum = "*"
shuttle-runtime = "*"
tokio = "*"
