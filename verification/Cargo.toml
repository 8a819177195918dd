[package]
name = "twocaptcha"
version = "0.1.0"
edition = "2021"
publish = false

[dependencies]
base64 = "=0.23.1"
serde = { version = "=1.0.229", features = ["derive"] }
serde_json = "=1.0.151"
thiserror = "=2.0.21"
url = "=2.5.8"
reqwest = { version = "=0.13.5", default-features = false, features = ["multipart", "form", "query"] }
tokio = { version = "=1.53.2", features = ["rt", "macros", "time", "fs"] }
