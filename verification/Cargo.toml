[package]
name = "notification_service"
version = "0.1.0"
edition = "2021"
publish = false

[dependencies]
bcrypt = "=0.19.3"
jsonwebtoken = { version = "=11.1.0", features = ["rust_crypto"] }
chrono = "=0.4.45"
uuid = { version = "=1.27.0", features = ["v4"] }
hmac = "=0.12.1"
sha1 = "=0.10.7"
serde = { version = "*", features = ["derive"] }
serde_json = "*"
axum = "*"
tokio = { version = "*", features = ["rt-multi-thread", "macros", "net"] }
tower = "*"
tower-http = { version = "*", features = ["cors"] }
tracing = "*"
tracing-subscriber = "*"
dotenv = "*"
anyhow = "*"
