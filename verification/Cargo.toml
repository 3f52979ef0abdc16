[package]
name = "formicarium"
version = "0.1.0"
edition = "2021"
publish = false

[dependencies]
semeion = "=0.9.1"
rand = "=0.8.8"
serde = { version = "=1.0.229", features = ["derive"] }
serde_json = "=1.0.154"
anyhow = "=1.0.104"
log = "=0.4.34"
env_logger = "=0.11.11"
ggez = "0.7"
