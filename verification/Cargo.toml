[package]
name = "gemini_moderator"
version = "0.1.0"
edition = "2021"
publish = false

[dependencies]
dotenvy = "0.15"
env_logger = "0.10"
log = "0.4"
once_cell = "1"
reqwest = { version = "0.11", default-features = false, features = ["json", "rustls-tls"] }
serde = { version = "1", features = ["derive"] }
serenity = "0.12"
tokio = { version = "1", features = ["macros", "rt-multi-thread"] }
