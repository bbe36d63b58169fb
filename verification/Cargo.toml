[package]
name = "jwks_verify"
version = "0.1.0"
edition = "2021"
publish = false

[dependencies]
jsonwebtoken = "9"
serde_json = "1"
actix-web = { version = "4", default-features = false, features = ["macros"] }
actix-cors = "0.7"
reqwest = { version = "0.12", default-features = false }
dotenv = "0.15"
env_logger = "0.11"
