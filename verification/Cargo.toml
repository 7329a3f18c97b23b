[package]
name = "axum_jwt_oidc"
version = "0.1.0"
edition = "2021"
publish = false

[dependencies]
async-oidc-jwt-validator = "*"
axum = "*"
futures = "*"
http = "*"
log = "*"
serde = { version = "*", features = ["derive"] }
tower = "*"
