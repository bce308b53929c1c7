[package]
name = "auth_api"
version = "0.1.0"
edition = "2021"
publish = false

[dependencies]
pwhash = "1"
bson = "2"
chrono = "0.4"
jsonschema = { version = "0.16", default-features = false }
serde_json = "1"
serde = { version = "1", features = ["derive"] }
jsonwebtoken = "8"
actix = "0.13"
actix-web = { version = "4", default-features = false, features = ["macros"] }
actix-web-httpauth = "0.8"
actix-cors = "0.6"
actix-files = "0.6"
mongodb = "2"
redis = { version = "0.23", features = ["tokio-comp", "connection-manager"] }
futures-util = "0.3"
log = "0.4"
