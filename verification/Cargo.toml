[package]
name = "borg-tool"
version = "0.1.0"
edition = "2021"
publish = false

[dependencies]
anyhow = "1"
chrono = { version = "0.4", default-features = false, features = ["clock"] }
clap = { version = "4", features = ["derive"] }
dialoguer = "*"
indicatif = "*"
rpassword = "*"
serde = { version = "1", features = ["derive"] }
serde_json = "1"
toml = "*"
