[package]
name = "auto_deploy"
version = "0.1.0"
edition = "2021"
publish = false

[dependencies]
axum = "*"
chrono = "*"
lettre = "*"
tokio = { version = "*", features = ["full"] }
