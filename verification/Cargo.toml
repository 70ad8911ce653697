[package]
name = "orac"
version = "0.1.0"
edition = "2021"
publish = false

[dependencies]
anyhow = "1"
askama = { version = "0.12", default-features = false }
async-trait = "0.1"
axum = "0.7"
bcrypt = "0.15"
oauth2 = "4.4"
poise = "0.6"
reqwest = { version = "0.11", default-features = false, features = ["json", "rustls-tls"] }
sea-orm = { version = "0.12", default-features = false, features = ["macros", "with-json", "with-time", "sqlx-sqlite", "runtime-tokio-rustls"] }
sea-orm-migration = { version = "0.12", default-features = false, features = ["sqlx-sqlite", "runtime-tokio-rustls"] }
serde = { version = "1", features = ["derive"] }
serde_json = "1"
serenity = { version = "0.12", default-features = false, features = ["builder", "cache", "client", "gateway", "http", "model", "utils", "rustls_backend"] }
time = "0.3"
tokio = { version = "1", features = ["macros", "rt-multi-thread"] }
toml = { version = "0.8", default-features = false, features = ["parse"] }
tower-http = { version = "0.5", features = ["fs"] }
tower-sessions = { version = "0.12", default-features = false, features = ["axum-core"] }
