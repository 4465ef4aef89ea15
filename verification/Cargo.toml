[package]
name = "webhook_notifier"
version = "0.1.0"
edition = "2021"
publish = false

[dependencies]
http = "1"
reqwest = { version = "0.12", default-features = false }
actix-web = { version = "4", default-features = false }
actix-rt = "2"
futures = "0.3"
log = "0.4"
serde = { version = "1", features = ["derive"] }
tracing-appender = "0.2"
tracing-subscriber = "0.3"
