[package]
name = "ws_gateway"
version = "0.1.0"
edition = "2021"
publish = false

[dependencies]
actix = "0.13"
actix-web = "4"
actix-web-actors = "4"
async-nats = "*"
chrono = "0.4"
clap = "3"
fancy-regex = "*"
futures = "0.3"
nats = "*"
redis = "*"
serde = { version = "1", features = ["derive"] }
serde_json = "1"
serde_qs = "*"
serde_yaml = "0.9"
tokio = { version = "1", features = ["full"] }
ureq = "2"
uuid = { version = "1", features = ["v4"] }
