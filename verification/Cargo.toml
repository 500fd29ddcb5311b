[package]
name = "mcd_client"
version = "0.1.0"
edition = "2021"
publish = false

[dependencies]
rand = "0.8"
uuid = { version = "1", features = ["v4"] }
reqwest = { version = "0.11", default-features = false, features = ["json"] }
reqwest-middleware = "0.2"
serde = { version = "1", features = ["derive"] }
serde_json = "1"
