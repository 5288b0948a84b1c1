[package]
name = "f69"
version = "0.1.0"
edition = "2021"
publish = false

[dependencies]
jsonwebtoken = "9"
rsa = "0.9"
base64 = "0.22"
argon2 = "0.5"
rand = "0.8"
uuid = { version = "1", features = ["v4", "serde"] }
chrono = { version = "0.4", features = ["serde"] }
serde = { version = "1", features = ["derive"] }
serde_json = { version = "1", features = ["raw_value"] }
figment = { version = "0.10", features = ["env"] }
validator = { version = "0.20", features = ["derive"] }
thiserror = "2"
anyhow = "1"
dotenvy = "0.15"
tracing = "0.1"
tracing-subscriber = { version = "0.3", features = ["env-filter", "json"] }
tokio = { version = "1", features = ["macros", "rt-multi-thread", "net", "sync", "time"] }
axum = "0.8"
tower-http = { version = "0.6", features = ["cors", "limit", "request-id", "set-header", "timeout", "trace"] }
reqwest = { version = "0.12", default-features = false, features = ["json"] }
sea-orm = { version = "1", default-features = false, features = ["sqlx-postgres", "runtime-tokio-rustls", "macros", "with-chrono", "with-uuid"] }
sea-orm-migration = { version = "1", default-features = false, features = ["sqlx-postgres", "runtime-tokio-rustls"] }
async-trait = "0.1"
