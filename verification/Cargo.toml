[package]
name = "converto"
version = "0.1.0"
edition = "2021"
publish = false

[dependencies]
actix = "=0.13.5"
actix-http = { version = "=3.19.0", features = ["ws"] }
actix-multipart = "=0.6.2"
actix-web = { version = "=4.18.1", default-features = false, features = ["macros", "ws"] }
actix-web-actors = "=4.3.1"
chrono = { version = "=0.4.45", default-features = false, features = ["clock"] }
dotenv = "=0.15.0"
env_logger = { version = "=0.11.11", default-features = false }
futures = "=0.3.34"
log = "=0.4.34"
serde = { version = "=1.0.229", features = ["derive"] }
serde_json = "=1.0.154"
tempfile = "=3.27.0"
uuid = { version = "=1.29.0", features = ["v4", "serde"] }
zip = { version = "=2.6.1", default-features = false }
