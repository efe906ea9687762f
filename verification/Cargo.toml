[package]
name = "auth_service"
version = "0.1.0"
edition = "2021"
publish = false

[dependencies]
argon2 = "*"
axum = "*"
chrono = "*"
dotenvy = "*"
jsonwebtoken = "9"
rand = "0.8"
serde = { version = "*", features = ["derive"] }
serde_json = "*"
tokio = { version = "*", features = ["full"] }
uuid = { version = "*", features = ["v4"] }
