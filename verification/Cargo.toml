[package]
name = "batch_inference"
version = "0.1.0"
edition = "2021"
publish = false

[dependencies]
axum = { version = "*", features = ["macros"] }
metrics = "*"
secrecy = { version = "*", features = ["serde"] }
serde = { version = "*", features = ["derive"] }
serde_json = "*"
tracing = "*"
uuid = { version = "*", features = ["v7", "serde"] }
