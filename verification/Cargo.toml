[package]
name = "barkeep"
version = "0.1.0"
edition = "2021"
publish = false

[dependencies]
argon2 = "0.5"
chrono = "0.4"
hmac = "0.12"
jwt = "0.16"
log = "0.4"
rand = "0.8"
redis = { version = "1", features = ["tokio-comp"] }
redis-macros = "1"
serde = { version = "1", features = ["derive"] }
serde_json = "1"
sha2 = "0.10"
sqlx = { version = "0.7", default-features = false, features = ["runtime-tokio", "postgres", "macros"] }
strsim = "0.11"
tokio = { version = "1", features = ["rt", "macros"] }
uuid = { version = "1", features = ["v4"] }
warp = "0.3"
