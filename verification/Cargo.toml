[package]
name = "user_service"
version = "0.1.0"
edition = "2021"
publish = false

[dependencies]
actix-web = { version = "4", default-features = false, features = ["macros"] }
actix-rt = { version = "2" }
sqlx = { version = "0.8", default-features = false, features = ["sqlite", "runtime-tokio", "migrate"] }
serde = { version = "1", features = ["derive"] }
dotenv = { version = "0.15" }
env_logger = { version = "0.11" }
