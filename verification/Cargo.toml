[package]
name = "gwasm_api"
version = "0.1.0"
edition = "2021"
publish = false

[dependencies]
actix = "*"
futures = "*"
tokio = { version = "*", features = ["full"] }
serde = { version = "*", features = ["derive"] }
serde_json = "*"
