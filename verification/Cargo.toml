[package]
name = "game_auth"
version = "0.1.0"
edition = "2021"
publish = false

[dependencies]
base64 = "0.21"
jsonwebtoken = "9"
serde = { version = "1", features = ["derive"] }
serde_json = "1"
actix-web = "4"
actix-session = "*"
redis = { version = "*", features = ["r2d2"] }
r2d2 = "0.8"
dotenv = "0.15"
