[package]
name = "coffee_catalog"
version = "0.1.0"
edition = "2021"
publish = false

[dependencies]
slug = "=0.1.6"
chrono = { version = "0.4", features = ["serde"] }
anyhow = "1"
async-trait = "0.1"
axum = "0.7"
sea-orm = { version = "1", default-features = false, features = ["macros", "with-chrono", "runtime-tokio-rustls", "sqlx-sqlite"] }
sea-orm-migration = { version = "1", default-features = false, features = ["runtime-tokio-rustls", "sqlx-sqlite"] }
serde = { version = "1", features = ["derive"] }
serde_json = "1"
tokio = { version = "1", features = ["macros", "rt-multi-thread", "net"] }
tower = { version = "0.5", features = ["timeout", "util"] }
tower-http = { version = "0.6", features = ["cors", "trace"] }
tracing = "0.1"
tracing-subscriber = "0.3"
