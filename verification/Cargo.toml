[package]
name = "turtle"
version = "0.1.0"
edition = "2021"
publish = false

[dependencies]
colored = "=2.2.0"
cookie = "=0.16.2"
hyper = { version = "=0.14.32", features = ["full"] }
jsonwebtoken = "=8.3.0"
juniper = { version = "=0.15.12", default-features = false, features = ["schema-language"] }
juniper_hyper = "=0.8.0"
mime = "=0.3.17"
mime_guess = "=2.0.5"
rand = "=0.8.8"
redis = { version = "=0.21.8", features = ["tokio-comp"] }
regex = "=1.13.1"
rsa = "=0.5.0"
scrypt = "=0.8.1"
serde = { version = "=1.0.229", features = ["derive"] }
serde_json = "=1.0.154"
tokio = { version = "=1.54.1", features = ["full"] }
tokio-util = { version = "=0.7.20", features = ["io"] }
