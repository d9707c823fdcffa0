[package]
name = "pantry"
version = "0.1.0"
edition = "2021"
publish = false

[dependencies]
askama = "=0.14.0"
async-trait = "=0.1.92"
axum = { version = "=0.8.9", features = ["macros", "multipart"] }
config = { version = "=0.15.27", default-features = false, features = ["toml"] }
serde = { version = "=1.0.229", features = ["derive"] }
sqlx = { version = "=0.8.6", default-features = false, features = ["derive", "migrate", "runtime-tokio", "sqlite"] }
thiserror = "=2.0.21"
tokio = { version = "=1.54.1", features = ["full"] }
tower-http = { version = "=0.6.11", features = ["timeout", "trace"] }
tracing = "=0.1.44"
tracing-subscriber = { version = "=0.3.23", features = ["env-filter"] }
