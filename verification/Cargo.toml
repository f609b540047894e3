[package]
name = "kx-page-rs"
version = "0.1.0"
edition = "2021"
publish = false

[dependencies]
sha2 = "0.10"
base64 = "0.22"
chrono = "0.4"
prost = "0.13"
axum = "0.8"
tokio = { version = "1", features = ["full"] }
rusqlite = { version = "*", features = ["bundled"] }
dotenv = "0.15"
lazy_static = "1"
