[package]
name = "modscraper"
version = "0.1.0"
edition = "2021"
publish = false

[dependencies]
axum = "0.7"
dotenvy = "0.15"
lazy_static = "1"
meilisearch-sdk = "*"
serde = { version = "1", features = ["derive"] }
serde_json = "1"
tokio = { version = "1", features = ["rt", "macros", "net"] }
tower = "0.5"
tower-http = { version = "0.6", features = ["cors"] }
