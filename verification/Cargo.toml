[package]
name = "stockday"
version = "0.1.0"
edition = "2021"
publish = false

[dependencies]
anyhow = "*"
arrow = "*"
chrono = "*"
glob = "*"
parquet = "*"
serde = { version = "*", features = ["derive"] }
serde_json = "*"
