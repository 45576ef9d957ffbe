[package]
name = "task_service"
version = "0.1.0"
edition = "2021"
publish = false

[dependencies]
anyhow = "=1.0.104"
axum = "=0.8.9"
axum-extra = { version = "=0.12.6", features = ["typed-header"] }
bcrypt = "=0.19.3"
chrono = { version = "=0.4.45", features = ["serde"] }
dotenvy = "=0.15.7"
http = "=1.5.0"
jsonwebtoken = { version = "=11.1.0", features = ["rust_crypto"] }
serde = { version = "=1.0.229", features = ["derive"] }
serde_json = "=1.0.151"
sqlx = { version = "=0.9.0", default-features = false, features = ["postgres", "runtime-tokio", "chrono", "uuid"] }
tokio = { version = "=1.53.2", features = ["rt-multi-thread", "macros", "net"] }
uuid = { version = "=1.27.0", features = ["serde", "v4"] }
validator = "=0.21.0"
