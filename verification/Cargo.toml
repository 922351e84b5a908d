[package]
name = "emitter"
version = "0.1.0"
edition = "2021"
publish = false

[dependencies]
rand = "=0.8.8"
uuid = { version = "*", features = ["v4"] }
chrono = "*"
serde = { version = "*", features = ["derive"] }
serde_json = "*"
serde_yaml = "*"
tokio = { version = "*", features = ["macros", "rt-multi-thread", "sync", "time", "net"] }
async-trait = "*"
futures = "*"
tracing = "*"
tracing-subscriber = "*"
axum = { version = "*", features = ["ws"] }
sqlx = { version = "*", default-features = false, features = ["runtime-tokio", "postgres", "chrono"] }
pgvector = { version = "*", features = ["sqlx"] }
qdrant-client = "*"
elasticsearch = { version = "8.5.0-alpha.1", default-features = false }
