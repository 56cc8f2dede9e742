[package]
name = "usso"
version = "0.1.0"
edition = "2021"
publish = false

[dependencies]
base64 = "=0.23.1"
jsonwebtoken = { version = "=11.1.0", features = ["rust_crypto"] }
serde = { version = "=1.0.229", features = ["derive"] }
serde_json = "=1.0.151"
uuid = "=1.27.0"
thiserror = "=2.0.21"
reqwest = { version = "=0.13.5", default-features = false, features = ["blocking", "json"] }
