[package]
name = "jwt_session"
version = "0.1.0"
edition = "2021"
publish = false

[dependencies]
iron = "0.6"
jsonwebtoken = "9"
r2d2_redis = "0.14"
serde = { version = "1", features = ["derive"] }
serde_json = "1"
