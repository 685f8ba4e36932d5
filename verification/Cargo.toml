[package]
name = "tda_server"
version = "0.1.0"
edition = "2021"
publish = false

[dependencies]
jsonwebtoken = "9"
argon2 = { version = "0.5", features = ["std"] }
url = "2"
serde = { version = "1", features = ["derive"] }
serde_json = "1"
axum = "0.6"
axum-extra = { version = "0.7", features = ["cookie"] }
hyper = { version = "0.14", features = ["full"] }
tokio = { version = "1", features = ["macros", "rt-multi-thread"] }
reqwest = { version = "0.11", features = ["json"] }
reqwest-middleware = "0.2"
reqwest-retry = "0.2"
task-local-extensions = "0.1"
chrono = "0.4"
mysql = "24"
uuid = { version = "1", features = ["v4"] }
dotenv = "0.15"
env_logger = "0.10"
log = "0.4"
async-trait = "0.1"
cookie = "0.17"
