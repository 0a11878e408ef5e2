[package]
name = "mechanic"
version = "0.1.0"
edition = "2021"
publish = false

[dependencies]
serde_json = "=1.0.151"
base64 = "=0.22.1"
jsonwebtoken = "=9.3.1"
chrono = "=0.4.45"
axum = "0.8"
axum-server = "*"
tokio = { version = "1", default-features = false, features = ["rt-multi-thread", "macros", "fs"] }
reqwest = { version = "0.12", default-features = false, features = ["json"] }
octocrab = "=0.43.0"
dotenv = "0.15"
