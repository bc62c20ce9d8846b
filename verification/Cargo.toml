[package]
name = "server"
version = "0.1.0"
edition = "2021"
publish = false

[dependencies]
anyhow = "=1.0.104"
argon2 = { version = "=0.5.3", features = ["std"] }
axum = "=0.8.9"
axum-extra = { version = "=0.10.3", features = ["cookie"] }
chrono = { version = "=0.4.45", features = ["serde"] }
cookie = "=0.18.2"
diesel = { version = "=2.3.14", features = ["postgres", "r2d2", "chrono"] }
diesel_migrations = { version = "=2.3.2", features = ["postgres"] }
dotenvy = "=0.15.7"
futures = "=0.3.34"
jsonwebtoken = "=9.3.1"
mimalloc = "=0.1.52"
reqwest = { version = "=0.12.28", default-features = false, features = ["json", "rustls-tls"] }
serde = { version = "=1.0.229", features = ["derive"] }
serde_json = "=1.0.154"
tokio = { version = "=1.54.1", features = ["full"] }
tokio-stream = { version = "=0.1.19", features = ["sync"] }
tower-http = { version = "=0.6.11", features = ["cors"] }
tracing = "=0.1.44"
tracing-subscriber = "=0.3.23"
urlencoding = "=2.1.3"
uuid = { version = "=1.29.1", features = ["v4"] }
