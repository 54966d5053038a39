[package]
name = "phisher"
version = "0.1.0"
edition = "2021"
publish = false

[dependencies]
argon2 = "=0.5.3"
password-hash = { version = "=0.5.0", features = ["rand_core", "std", "getrandom"] }
uuid = { version = "=1.27.0", features = ["v4"] }
poem = { version = "=3.1.12", features = ["cookie", "session", "static-files"] }
tokio = { version = "=1.53.2", features = ["full"] }
csv = "=1.4.0"
anyhow = "*"
chrono = "*"
tracing = "*"
tracing-subscriber = { version = "*", features = ["env-filter"] }
