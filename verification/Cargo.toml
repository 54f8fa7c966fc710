[package]
name = "proxy_manager"
version = "0.1.0"
edition = "2021"
publish = false

[dependencies]
anyhow = "=1.0.104"
async-trait = "=0.1.92"
axum = "=0.8.9"
base64 = "=0.22.1"
bcrypt = "=0.17.1"
chrono = { version = "=0.4.45", features = ["serde"] }
deadpool-diesel = { version = "=0.6.1", features = ["postgres"] }
diesel = { version = "=2.3.14", features = ["postgres", "chrono"] }
diesel_migrations = "=2.3.2"
dotenvy = "=0.15.7"
env_logger = "=0.11.11"
instant-acme = "=0.8.5"
ipnet = "=2.12.2"
jsonwebtoken = "=9.3.1"
log = "=0.4.35"
openssl = "=0.10.82"
regex = "=1.13.1"
reqwest = { version = "=0.12.28", features = ["json"] }
serde = { version = "=1.0.229", features = ["derive"] }
serde_json = "=1.0.154"
tokio = { version = "=1.54.1", features = ["full"] }
