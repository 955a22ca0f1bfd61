[package]
name = "chat_rs"
version = "0.1.0"
edition = "2021"
publish = false

[dependencies]
axum = "=0.6.20"
axum-extra = { version = "=0.7.7", features = ["cookie"] }
axum-macros = "=0.3.8"
bcrypt = "=0.15.1"
dotenvy = "=0.15.7"
jsonwebtoken = "=8.3.0"
rand = "=0.8.8"
serde = { version = "1", features = ["derive"] }
serde_json = { version = "=1.0.154", features = ["preserve_order"] }
sqlx = { version = "=0.7.4", default-features = false, features = ["runtime-tokio", "postgres", "uuid", "time", "migrate", "macros"] }
time = { version = "=0.3.55", features = ["formatting", "serde"] }
tokio = { version = "1", features = ["full"] }
tower = "=0.4.13"
tower-http = { version = "=0.4.4", features = ["trace"] }
tracing = "0.1"
tracing-subscriber = { version = "0.3", features = ["env-filter"] }
uuid = { version = "=1.29.0", features = ["v4", "serde"] }

[dev-dependencies]
base64 = "=0.21.7"
hmac = "=0.12.1"
sha2 = "=0.10.9"
