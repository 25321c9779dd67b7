[package]
name = "tshare"
version = "0.1.0"
edition = "2021"
publish = false

[dependencies]
aes-gcm = "0.10"
sha2 = "0.10"
base64 = "0.22"
mime_guess = "2"
rand = "0.9"
uuid = { version = "1", features = ["v4"] }
axum = { version = "0.8", features = ["multipart"] }
tokio = { version = "1", features = ["full"] }
redis = { version = "0.32", features = ["tokio-comp", "connection-manager"] }
serde = { version = "1", features = ["derive"] }
serde_json = "1"
chrono = "0.4"
tracing = "0.1"
anyhow = "1"
lazy_static = "1"
bytes = "1"
async-trait = "0.1"
askama = "0.14"
tower = { version = "0.5", features = ["timeout", "util"] }
tower-http = { version = "0.6", features = ["trace"] }
rust-embed = "8"
suppaftp = "6"
sea-orm = { version = "1", default-features = false, features = ["macros", "runtime-tokio-rustls", "sqlx-sqlite"] }
