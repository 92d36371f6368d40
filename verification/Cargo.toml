[package]
name = "record_store"
version = "0.1.0"
edition = "2021"
publish = false

[dependencies]
actix-rt = "=1.1.1"
actix-web = "3"
bson = "=1.2.4"
env_logger = "=0.7.1"
listenfd = "=0.3.5"
mongodb = "=1.2.5"
serde = { version = "=1.0.229", features = ["derive"] }
serde_json = "=1.0.154"
uuid = { version = "=0.8.2", features = ["v4"] }
