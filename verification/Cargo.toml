[package]
name = "filebox"
version = "0.1.0"
edition = "2021"
publish = false

[dependencies]
actix = "0.13"
actix-cors = "0.6"
actix-easy-multipart = "3"
actix-extensible-rate-limit = "0.2"
actix-files = "0.6"
actix-http = "3"
actix-redis = "0.12"
actix-rt = "2"
actix-web = { version = "4", default-features = false, features = ["macros"] }
actix-web-lab = "0.18"
anyhow = "1"
chrono = "0.4"
dotenvy = "0.15"
env_logger = "0.10"
log = "0.4"
redis = "0.22"
serde = { version = "1", features = ["derive"] }
serde_json = "1"
sqlx = { version = "0.6", features = ["runtime-tokio-rustls", "postgres", "chrono"] }
thiserror = "1"
tiny_id = "0.1"
tokio = { version = "1", features = ["macros", "rt-multi-thread", "signal", "sync"] }
tokio_schedule = "0.3"
uuid = { version = "1", features = ["v4"] }
validator = "0.16"
