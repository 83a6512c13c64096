[package]
name = "dcapal_backend"
version = "0.1.0"
edition = "2021"
publish = false

[dependencies]
chrono = "*"
serde = { version = "*", features = ["derive"] }
serde_json = "*"
axum = "*"
axum-extra = { version = "*", features = ["typed-header"] }
hyper = "*"
tokio = { version = "*", features = ["rt-multi-thread", "macros"] }
config = "*"
