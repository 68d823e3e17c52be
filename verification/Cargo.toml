[package]
name = "dino_park_lookout"
version = "0.1.0"
edition = "2021"
publish = false

[dependencies]
actix = "=0.9.0"
actix-cors = "=0.2.0"
actix-rt = "=1.1.1"
actix-web = "=2.0.0"
biscuit = "=0.4.2"
chrono = "=0.4.19"
config = "=0.10.1"
env_logger = "=0.7.1"
failure = "=0.1.8"
failure_derive = "=0.1.8"
futures = "=0.3.34"
log = "=0.4.34"
reqwest = { version = "=0.10.10", default-features = false, features = ["json"] }
serde = { version = "=1.0.229", features = ["derive"] }
serde_derive = "=1.0.229"
serde_json = "=1.0.154"
tokio = { version = "=0.2.25", features = ["rt-threaded"] }
