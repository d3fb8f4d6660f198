[package]
name = "bios_bridge"
version = "0.1.0"
edition = "2021"
publish = false

[dependencies]
base64 = "=0.13.1"
uuid = { version = "=0.8.2", features = ["v4"] }
reqwest = { version = "=0.11.27", default-features = false, features = ["json"] }
serde = { version = "=1.0.229", features = ["derive"] }
rocket = { version = "0.5", features = ["json"] }
rocket-multipart-form-data = "0.10"
