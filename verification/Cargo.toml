[package]
name = "federated_actions"
version = "0.1.0"
edition = "2021"
publish = false

[dependencies]
activitypub_federation = { version = "0.5", default-features = false, features = ["actix-web"] }
actix-web = { version = "4", default-features = false }
base64 = "0.21"
captcha = "0.0.9"
chrono = { version = "0.4", default-features = false, features = ["std", "clock"] }
futures = "0.3"
serde = { version = "1", features = ["derive"] }
serde_with = "3"
tracing = "0.1"
typed-builder = "0.18"
urlencoding = "2"
wav = "1"
