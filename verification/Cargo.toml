[package]
name = "auth-service"
version = "0.1.0"
edition = "2021"
publish = false

[dependencies]
axum = "=0.8.9"
axum-extra = { version = "=0.10.3", features = ["cookie"] }
jsonwebtoken = { version = "=9.3.1", default-features = false }
rand = "=0.9.5"
serde = { version = "=1.0.229", features = ["derive"] }
serde_json = "=1.0.154"
tokio = { version = "=1.54.1", features = ["full"] }
tower-http = { version = "=0.6.11", features = ["cors", "fs"] }
utoipa = { version = "=5.5.0", features = ["axum_extras"] }
utoipa-rapidoc = { version = "6", features = ["axum"] }
uuid = { version = "=1.29.0", features = ["v4"] }
validator = { version = "=0.20.0", features = ["derive"] }
