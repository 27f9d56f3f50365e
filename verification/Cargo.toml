[package]
name = "graph_notes"
version = "0.1.0"
edition = "2021"
publish = false

[dependencies]
serde = { version = "1", features = ["derive"] }
serde_json = "1"
chrono = { version = "0.4", features = ["serde"] }
clap = { version = "4", features = ["derive"] }
sqlx = { version = "0.8", default-features = false, features = ["runtime-tokio", "sqlite", "chrono", "json", "macros"] }
tokio = { version = "1", features = ["rt-multi-thread", "macros", "sync"] }
thiserror = "2"
log = "0.4"
env_logger = "0.11"
dotenvy = "0.15"
once_cell = "1"
config = { version = "*", default-features = false, features = ["toml"] }
