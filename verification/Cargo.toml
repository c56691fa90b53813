[package]
name = "rest_server"
version = "0.1.0"
edition = "2021"
publish = false

[dependencies]
oauth2 = "5"
garde = { version = "0.20", features = ["derive", "email"] }
axum = "0.7"
axum-extra = "0.9"
axum_garde = "0.20"
tokio = { version = "1", features = ["full"] }
tower-http = { version = "0.5", features = ["cors"] }
tower-sessions = "0.12"
reqwest = { version = "0.12", features = ["json"] }
serde = { version = "1", features = ["derive"] }
dotenv = "0.15"
env_logger = "0.11"
gatekeeper = "*"
