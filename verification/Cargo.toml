[package]
name = "nitro_share"
version = "0.1.0"
edition = "2021"
publish = false

[dependencies]
actix-web = "4"
ahash = "0.8"
anyhow = "1"
argon2 = "0.5"
base64 = "0.21"
chrono = "0.4"
clap = { version = "4", features = ["derive"] }
futures-util = "0.3"
parking_lot = "0.12"
rand = "0.8"
redb = "1"
sea-orm = { version = "0.12", features = ["sqlx-postgres", "runtime-tokio-rustls", "macros"] }
serde = { version = "1", features = ["derive"] }
sha2 = "0.10"
thiserror = "1"
tokio = { version = "1", features = ["macros", "rt-multi-thread"] }
toml = "0.8"
tracing = "0.1"
