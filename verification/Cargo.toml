[package]
name = "httpbl_auth"
version = "0.1.0"
edition = "2021"
publish = false

[dependencies]
actix-web = { version = "4", default-features = false, features = ["macros"] }
anyhow = "1"
config = { version = "0.15", default-features = false }
dotenv = "0.15"
env_logger = "0.11"
hickory-resolver = "0.25"
log = "0.4"
serde = { version = "1", features = ["derive"] }
tokio = { version = "1", features = ["macros", "rt-multi-thread"] }
