[package]
name = "vault_core"
version = "0.1.0"
edition = "2021"
publish = false

[dependencies]
chrono = "0.4"
uuid = { version = "1", features = ["v4"] }
serde = { version = "1", features = ["derive"] }
serde_json = "1"
axum = { version = "0.8", default-features = false, features = ["json"] }
worker = { version = "*", features = ["http", "axum", "d1"] }
