[package]
name = "pantry_service"
version = "0.1.0"
edition = "2021"
publish = false

[dependencies]
argon2 = "=0.6.0"
jsonwebtoken = { version = "=11.1.0", features = ["rust_crypto"] }
serde_json = "=1.0.151"
chrono = "=0.4.45"
uuid = { version = "=1.27.0", features = ["v4"] }
serde = { version = "=1.0.229", features = ["derive"] }
thiserror = "=2.0.21"
axum = "=0.8.9"
async-graphql = "=7.2.1"
async-graphql-axum = "=7.2.1"
aws-config = "=1.12.0"
aws-sdk-dynamodb = "=1.130.0"
tokio = { version = "=1.53.2", features = ["macros", "rt-multi-thread", "net"] }
tower = "=0.5.3"
tower-http = { version = "=0.7.1", features = ["cors", "compression-gzip", "compression-deflate", "compression-br"] }
tracing = "=0.1.44"
tracing-subscriber = "=0.3.23"
dotenvy = "=0.15.7"
