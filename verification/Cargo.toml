[package]
name = "nino"
version = "0.1.0"
edition = "2021"
publish = false

[dependencies]
anyhow = "1"
async-channel = "*"
async-h1 = "2"
async-std = "1"
bcrypt = "*"
chrono = "0.4"
deadpool-postgres = "*"
hmac = "0.12"
http-types = "2"
jwt = "0.16"
postgres = "0.19"
reqwest = { version = "*", default-features = false }
sha2 = "0.10"
tokio = { version = "1", features = ["full"] }
tokio-postgres = "0.7"
