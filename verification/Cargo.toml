[package]
name = "olvm"
version = "0.1.0"
edition = "2021"
publish = false

[dependencies]
regex = "=1.13.1"
uuid = { version = "=1.29.0", features = ["v4"] }
serde = { version = "=1.0.229", features = ["derive"] }
serde_json = "=1.0.154"
toml = "=1.1.8"
bson = "=2.15.0"
mongodb = { version = "=3.9.1", features = ["sync"] }
mhttp = "=0.1.0"
