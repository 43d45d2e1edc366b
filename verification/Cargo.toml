[package]
name = "service_schema"
version = "0.1.0"
edition = "2021"

[dependencies]
serde = { version = "=1.0.229", features = ["derive"] }
serde_json = "=1.0.154"
uuid = { version = "1", features = ["v4", "serde"] }
