[package]
name = "ncm_tui"
version = "0.1.0"
edition = "2021"
publish = false

[dependencies]
anyhow = "=1.0.104"
chrono = "=0.4.45"
crossterm = "=0.28.1"
dirs-next = "=2.0.0"
log = "=0.4.35"
ratatui = "=0.29.0"
regex = "1"
reqwest = { version = "=0.12.28", features = ["json"] }
serde = { version = "=1.0.229", features = ["derive"] }
serde_json = "=1.0.154"
tokio = { version = "=1.54.1", features = ["full"] }
tui-textarea = "=0.7.0"
unicode-width = "=0.2.0"
