[package]
name = "ssdownloader"
version = "0.1.0"
edition = "2021"
publish = false

[dependencies]
clap = { version = "3", features = ["derive"] }
curl = "*"
dirs = "*"
serde = { version = "1", features = ["derive"] }
time = "0.3"
toml = "*"
