[package]
name = "shopcore"
version = "0.1.0"
edition = "2021"
publish = false

[dependencies]
bcrypt = "=0.19.3"
jsonwebtoken = { version = "=11.1.0", features = ["rust_crypto"] }
serde = { version = "=1.0.229", features = ["derive"] }
serde_json = "=1.0.151"
actix-web = { version = "=4.15.0", default-features = false, features = ["macros"] }
sqlx = { version = "=0.9.0", default-features = false, features = ["mysql", "runtime-tokio"] }
validator = "=0.21.0"
chrono = { version = "=0.4.45", default-features = false, features = ["clock", "serde"] }
dotenv = "=0.15.0"
env_logger = "=0.11.11"
futures = "=0.3.34"
