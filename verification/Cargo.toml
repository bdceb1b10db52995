[package]
name = "file_organizer"
version = "0.1.0"
edition = "2021"
publish = false

[dependencies]
sha2 = "*"
notify = "*"
log = "*"
env_logger = "*"
serde = { version = "*", features = ["derive"] }
toml = "*"
