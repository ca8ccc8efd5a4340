[package]
name = "opendal_boundary"
version = "0.1.0"
edition = "2021"
publish = false

[dependencies]
bytes = "=1.12.1"
opendal = { version = "=0.50.2", default-features = false, features = ["services-memory"] }
serde = { version = "=1.0.229", features = ["derive"] }
serde_json = "=1.0.154"
