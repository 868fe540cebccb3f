[package]
name = "postboard"
version = "0.1.0"
edition = "2021"
publish = false

[dependencies]
bcrypt = "*"
jsonwebtoken = "9"
serde_json = { version = "1", features = ["raw_value"] }
serde = "1"
serde_derive = "1"
actix-web = "4"
juniper = "0.16"
r2d2 = "0.8"
r2d2_sqlite = "*"
rusqlite = { version = "*", features = ["bundled"] }
serde_rusqlite = "*"
dotenv = "0.15"
env_logger = "*"
listenfd = "1"
log = "0.4"
