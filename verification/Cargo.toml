[package]
name = "repo_archiver"
version = "0.1.0"
edition = "2021"
publish = false

[dependencies]
anyhow = "1"
chrono = { version = "0.4", features = ["serde"] }
dialoguer = "0.8"
env_logger = "0.8"
log = "0.4"
reqwest = { version = "0.11", features = ["blocking", "json"] }
rpassword = "5"
serde = { version = "1", features = ["derive"] }
serde_json = "1"
structopt = "0.3"
