[package]
name = "ephemeride_backend"
version = "0.1.0"
edition = "2021"
publish = false

[dependencies]
bcrypt = "*"
chrono = { version = "*", default-features = false, features = ["std"] }
uuid = { version = "*", features = ["v4"] }
validator = "*"
serde = { version = "*", features = ["derive"] }
serde_json = "*"
poem = { version = "*", features = ["static-files"] }
tokio = { version = "*", features = ["rt-multi-thread", "macros"] }
dotenvy = "*"
tracing-subscriber = "*"
diesel = { version = "*", features = ["postgres"] }
