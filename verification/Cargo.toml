[package]
name = "tmuxify"
version = "0.1.0"
edition = "2021"
publish = false

[dependencies]
anyhow = "1"
chrono = "0.4"
clap = { version = "4", features = ["derive"] }
console = "0.15"
dialoguer = "0.11"
dirs = "5"
indicatif = "0.17"
serde_yaml = "0.9"
which = "6"
