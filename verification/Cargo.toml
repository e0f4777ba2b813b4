[package]
name = "mentem_api"
version = "0.1.0"
edition = "2021"
publish = false

[dependencies]
anthropic = "=0.0.8"
argon2 = { version = "=0.5.3", features = ["std"] }
async-trait = "=0.1.92"
axum = "=0.8.9"
dotenvy = "=0.15.7"
futures = "=0.3.34"
jsonwebtoken = "=9.3.1"
serde = { version = "=1.0.229", features = ["derive"] }
serde_json = { version = "=1.0.154", features = ["preserve_order"] }
sqlx = { version = "=0.8.6", default-features = false, features = ["postgres", "runtime-tokio", "uuid", "migrate"] }
tokio = { version = "=1.54.1", features = ["full"] }
tower_governor = "=0.7.0"
tracing = "=0.1.44"
tracing-subscriber = { version = "=0.3.23", features = ["env-filter"] }
uuid = { version = "=1.29.1", features = ["v4", "serde"] }
