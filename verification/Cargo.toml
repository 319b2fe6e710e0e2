[package]
name = "music_bot"
version = "0.1.0"
edition = "2021"
publish = false

[dependencies]
rand = "=0.8.8"
uuid = { version = "=1.29.1", features = ["v4"] }
serde = { version = "=1.0.229", features = ["derive"] }
toml = "=0.5.11"
tracing = "=0.1.44"
tracing-subscriber = "=0.3.23"
tracing-log = "=0.1.4"
dotenv = "=0.15.0"
derivative = "=2.2.0"
tokio = { version = "=1.54.1", features = ["full"] }
poise = "=0.2.2"
serenity = { version = "0.10", default-features = false, features = ["builder", "cache", "client", "gateway", "model", "http", "utils", "rustls_backend", "voice"] }
songbird = { version = "0.2", default-features = false, features = ["serenity-rustls", "gateway"] }
lavalink-rs = { version = "=0.8.0", features = ["rustls", "serenity"] }
sqlx = { version = "=0.6.3", features = ["postgres", "runtime-tokio-rustls", "migrate", "macros"] }
