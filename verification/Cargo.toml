[package]
name = "meilisearch-types"
version = "1.0.0"
edition = "2021"
publish = false

[dependencies]
actix-web = { version = "=4.18.1", default-features = false, features = ["macros"] }
anyhow = "=1.0.104"
env_logger = "=0.9.3"
heed = "=0.23.0"
log = "=0.4.34"
mimalloc = { version = "=0.1.52", default-features = false }
serde = { version = "=1.0.229", features = ["derive"] }
serde_json = "=1.0.154"
tempfile = "=3.27.0"
