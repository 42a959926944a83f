[package]
name = "webhook_ingest"
version = "0.1.0"
edition = "2021"
publish = false

[dependencies]
actix-web = "*"
bytes = "*"
futures = "*"
serde = { version = "*", features = ["derive"] }
serde_json = "*"
