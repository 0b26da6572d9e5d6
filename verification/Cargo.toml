[package]
name = "secure_browser"
version = "0.1.0"
edition = "2021"
publish = false

[dependencies]
anyhow = "1"
axum = "*"
chromiumoxide = { version = "0.7", default-features = false, features = ["tokio-runtime"] }
env_logger = "*"
futures = "0.3"
log = "0.4"
reqwest = { version = "*", default-features = false, features = ["json"] }
serde = { version = "1", features = ["derive"] }
serde_json = "1"
tokio = { version = "1", features = ["full"] }
tower-http = { version = "*", features = ["cors"] }
