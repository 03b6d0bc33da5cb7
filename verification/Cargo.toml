[package]
name = "tsh"
version = "0.1.0"
edition = "2021"
publish = false

[dependencies]
async-openai = { version = "=0.42.1", features = ["embedding", "chat-completion"] }
chrono = "=0.4.45"
color-eyre = "=0.6.5"
ratatui = "=0.30.2"
rusqlite = { version = "=0.40.2", features = ["bundled"] }
rusqlite_migration = "=2.6.0"
serde = { version = "=1.0.229", features = ["derive"] }
sqlite-vec = "=0.1.9"
tempfile = "=3.27.0"
tokio = { version = "=1.53.2", features = ["macros", "rt-multi-thread"] }
toml = "=1.1.6"
zerocopy = "=0.8.59"
