[package]
name = "jwt_service"
version = "0.1.0"
edition = "2021"
publish = false

[dependencies]
jsonwebtoken = { version = "=11.1.0", default-features = false, features = ["rust_crypto"] }
serde_json = "=1.0.151"
serde = { version = "*", features = ["derive"] }
toml = "*"
log = "*"
pretty_env_logger = "*"
clap = { version = "*", features = ["derive"] }
