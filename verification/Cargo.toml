[package]
name = "social_service"
version = "0.1.0"
edition = "2021"
publish = false

[dependencies]
urlencoding = "2"
hmac = "0.12"
sha2 = "0.10"
hex = "0.4"
serde = { version = "1", features = ["derive"] }
serde_json = "1"
actix-web = "4"
reqwest = { version = "0.11", default-features = false, features = ["json", "rustls-tls"] }
sqlx = { version = "0.6", default-features = false, features = ["runtime-tokio-rustls", "postgres", "uuid", "chrono", "json"] }
deadpool-redis = "0.11"
tokio = { version = "1", features = ["full"] }
clap = { version = "4", features = ["derive"] }
config = { version = "0.13", default-features = false, features = ["toml"] }
log = "0.4"
env_logger = "0.10"
uuid = { version = "1", features = ["v4", "serde"] }
chrono = "0.4"
thiserror = "1"
async-trait = "0.1"
futures-util = "0.3"
tracing = "0.1"
tracing-actix-web = "0.7"
