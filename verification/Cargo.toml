[package]
name = "todo_service"
version = "0.1.0"
edition = "2021"
publish = false

[dependencies]
actix-web = "*"
actix-cors = "*"
anyhow = "*"
derive_more = { version = "*", features = ["display", "error"] }
env_logger = "*"
listenfd = "*"
log = "*"
serde = { version = "*", features = ["derive"] }
sqlx = { version = "*", features = ["runtime-tokio", "postgres"] }
