[package]
name = "plutodesk"
version = "0.1.0"
edition = "2021"
publish = false

[dependencies]
uuid = { version = "=1.29.0", features = ["v4", "serde"] }
chrono = { version = "=0.4.45", features = ["serde"] }
serde = { version = "=1.0.229", features = ["derive"] }
serde_json = { version = "=1.0.154", features = ["preserve_order"] }
log = "=0.4.34"
base64 = "=0.22.1"
image = { version = "0.25", default-features = false, features = ["png"] }
sea-orm = { version = "1", default-features = false, features = ["macros", "sqlx-sqlite", "runtime-tokio-rustls", "with-chrono", "with-uuid"] }
sea-orm-migration = { version = "1", default-features = false, features = ["sqlx-sqlite", "runtime-tokio-rustls", "cli"] }
async-trait = "0.1"
async-std = { version = "1", features = ["attributes"] }
dotenvy = "0.15"
env_logger = "0.11"

[dev-dependencies]
tempfile = "=3.27.0"
