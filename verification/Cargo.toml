[package]
name = "axum_required_headers"
version = "0.1.0"
edition = "2021"
publish = false

[dependencies]
http = "1"
axum = "0.8"
serde_json = "1"
