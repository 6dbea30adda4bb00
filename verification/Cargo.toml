[package]
name = "api"
version = "0.1.0"
edition = "2021"
publish = false

[dependencies]
ammonia = "4"
argon2 = "0.5"
axum = "0.7"
axum-login = "0.15"
chrono = "0.4"
garde = { version = "0.20", features = ["email", "derive"] }
rand = "0.8"
regex = "1"
serde = { version = "1", features = ["derive"] }
serde_json = "1"
thiserror = "1"
tokio = { version = "1", features = ["full"] }
tower-sessions = "0.12"
tracing = "0.1"
uuid = { version = "1", features = ["v4", "serde"] }
