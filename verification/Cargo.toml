[package]
name = "presencebot"
version = "0.1.0"
edition = "2021"
publish = false

[dependencies]
chrono = "=0.4.45"
log = "=0.4.34"
pretty_env_logger = "=0.5.0"
reqwest = { version = "=0.12.28", features = ["json"] }
serde = { version = "=1.0.229", features = ["derive"] }
sqlx = { version = "=0.8.6", features = ["sqlite", "runtime-tokio"] }
# Not used directly: teloxide depends on it, and 0.1.2 asks for Rust 1.96.
takecell = "=0.1.1"
teloxide = "=0.17.0"
tokio = { version = "=1.54.1", features = ["rt-multi-thread", "macros", "time"] }
