[package]
name = "ai_butler"
version = "0.1.0"
edition = "2021"
publish = false

[dependencies]
tokio = { version = "1", features = ["sync", "macros", "rt-multi-thread"] }
serde = { version = "1", features = ["derive"] }
serde_json = "1"
ratatui = "0.29"
tui-input = "0.11"
reqwest = { version = "0.12", features = ["json"] }
dirs = "5"
dotenv = "0.15"
