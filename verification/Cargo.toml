[package]
name = "context_manager"
version = "0.1.0"
edition = "2021"
publish = false

[dependencies]
uuid = { version = "1", features = ["v4", "serde"] }
chrono = { version = "0.4", features = ["serde"] }
dashmap = "5"
sha2 = "0.10"
hmac = "0.12"
hex = "0.4"
rand = "0.8"
serde_json = "1"
serde = { version = "1", features = ["derive"] }
moka = { version = "0.12", features = ["sync", "future"] }
tokio = { version = "1", features = ["full"] }
async-trait = "0.1"
axum = "0.7"
tower = "0.4"
tower-http = { version = "0.5", features = ["trace", "limit"] }
reqwest = { version = "0.12", default-features = false, features = ["json", "rustls-tls"] }
qdrant-client = "1"
secrecy = { version = "0.8", features = ["serde"] }
thiserror = "1"
anyhow = "1"
bytes = "1"
rmp-serde = "1"
config = { version = "0.14", default-features = false, features = ["toml"] }
tracing = "0.1"
tracing-subscriber = { version = "0.3", features = ["env-filter", "json"] }
