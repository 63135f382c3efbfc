[package]
name = "seance"
version = "0.1.0"
edition = "2021"
publish = false

[dependencies]
regex = "1"
lru = "0.12"
twilight-model = "0.15"
twilight-mention = "0.15"
twilight-validate = "0.15"
twilight-http = "0.15"
twilight-gateway = "0.15"
tokio = { version = "1", features = ["rt", "sync", "time"] }
reqwest = { version = "0.11", default-features = false }
futures = "0.3"
serde = { version = "1", features = ["derive"] }
toml = "0.8"
crossterm = "0.27"
