[package]
name = "authnotes"
version = "0.1.0"
edition = "2021"
publish = false

[dependencies]
jsonwebtoken = { version = "=11.1.0", features = ["rust_crypto"] }
serde_json = "=1.0.151"
serde = { version = "=1.0.229", features = ["derive"] }
axum = "=0.8.9"
axum-extra = { version = "=0.12.6", features = ["cookie"] }
tokio = { version = "=1.53.2", features = ["macros", "rt-multi-thread", "net"] }
config = "=0.15.27"
chrono = "=0.4.45"
chrono-tz = "=0.10.4"
time = "=0.3.55"
