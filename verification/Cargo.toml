[package]
name = "pulsedeck"
version = "0.5.0"
edition = "2021"
publish = false

[dependencies]
anyhow = "1"
dirs = "5"
id3 = "1"
serde = { version = "1", features = ["derive"] }
serde_json = "1"
toml = "0.8"
