[package]
name = "link_shortener"
version = "0.1.0"
edition = "2021"
publish = false

[dependencies]
http = "0.2"
http-auth-basic = "*"
mime_guess = "2"
warp = "0.3"
tokio = { version = "1", features = ["macros", "rt-multi-thread"] }
serde = { version = "1", features = ["derive"] }
serde_json = "1"
log = "0.4"
pretty_env_logger = "0.5"
dotenv = "0.15"
anyhow = "1"
