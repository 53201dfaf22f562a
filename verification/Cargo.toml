[package]
name = "megagame"
version = "0.1.0"
edition = "2021"
publish = false

[dependencies]
rand = "=0.8.8"
uuid = { version = "=1.29.0", features = ["v4"] }
serde = { version = "=1.0.229", features = ["derive"] }
serde_json = "=1.0.154"
tokio = { version = "=1.54.1", features = ["full"] }
async-trait = "=0.1.92"
sea-orm = { version = "=0.12.15", features = ["sqlx-sqlite", "runtime-tokio-rustls", "macros"] }
sea-orm-migration = { version = "=0.12.15", default-features = false, features = ["sqlx-sqlite", "runtime-tokio-rustls"] }
clap = { version = "=4.6.7", features = ["derive"] }
eyre = "=0.6.14"
tracing = "=0.1.44"
tracing-subscriber = { version = "=0.3.23", features = ["env-filter"] }
serenity = "0.12"
