[package]
name = "notes_api"
version = "0.1.0"
edition = "2021"
publish = false

[dependencies]
actix-web = "4"
actix-service = "2"
actix-web-httpauth = "0.8"
bson = "2"
chrono = "0.4"
dotenv = "0.15"
env_logger = "0.10"
futures = "0.3"
futures-util = "0.3"
jsonwebtoken = "9"
log = "0.4"
mongodb = "2"
serde = { version = "1", features = ["derive"] }
serde_json = { version = "1", features = ["preserve_order"] }
tokio = { version = "1", features = ["macros", "rt-multi-thread"] }
uuid = { version = "1", features = ["v4"] }
