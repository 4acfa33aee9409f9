[package]
name = "audiocrab"
version = "0.1.0"
edition = "2021"
publish = false

[dependencies]
anyhow = "1"
chrono = "0.4"
clap = { version = "4", features = ["derive"] }
cpal = "*"
dirs = "*"
fslock = "*"
interprocess = "2"
rayon = "1"
rodio = "*"
rusqlite = { version = "*", features = ["bundled"] }
serde = { version = "1", features = ["derive"] }
serde_json = "1"
tempfile = "3"
toml = "*"
url = "2"
