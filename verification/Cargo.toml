[package]
name = "badge_admin_core"
version = "0.1.0"
edition = "2021"
publish = false

[dependencies]
argon2 = "=0.5.3"
password-hash = { version = "=0.5.0", features = ["getrandom"] }
chrono = "=0.4.45"
axum = "=0.8.9"
tokio = { version = "=1.53.2", features = ["rt-multi-thread", "net", "macros", "fs"] }
mongodb = "=3.9.1"
serde = { version = "=1.0.229", features = ["derive"] }
futures-util = "=0.3.34"
tower-cookies = "=0.11.0"
