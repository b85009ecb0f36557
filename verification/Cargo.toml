[package]
name = "jwt_auth"
version = "0.1.0"
edition = "2021"
publish = false

[dependencies]
jsonwebtoken = "=9.3.1"
serde_json = "=1.0.151"
chrono = "=0.4.45"
serde = "=1.0.229"
axum = { version = "=0.8.9", default-features = false }
