[package]
name = "chimitheque_back"
version = "0.1.0"
edition = "2021"
publish = false

[dependencies]
axum = "=0.8.9"
axum-extra = { version = "=0.12.6", features = ["query"] }
axum-oidc = "=0.6.0"
casbin = "=2.20.0"
chrono = "=0.4.45"
dotenvy = "=0.15.7"
env_logger = "=0.11.11"
governor = "*"
http = "=1.5.0"
jsonwebtoken = "9"
log = "=0.4.34"
r2d2 = "=0.8.10"
r2d2_sqlite = "=0.35.0"
reqwest = { version = "=0.11.27", default-features = false, features = ["json", "rustls-tls"] }
rusqlite = { version = "=0.40.2", features = ["load_extension"] }
serde = { version = "=1.0.229", features = ["derive"] }
thiserror = "=2.0.21"
tokio = { version = "=1.54.1", features = ["full"] }
tower = "=0.5.3"
tower-sessions = "=0.14.0"
url = "=2.5.8"
