[package]
name = "upload_engine"
version = "0.1.0"
edition = "2021"
publish = false

[dependencies]
async-trait = "*"
dashmap = "*"
mime_guess = "*"
serde = { version = "*", features = ["derive"] }
serde_json = "*"
tokio = { version = "*", features = ["full"] }
