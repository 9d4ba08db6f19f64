[package]
name = "humility"
version = "0.1.0"
edition = "2021"
publish = false

[dependencies]
anyhow = "1"
clap = { version = "3.2", features = ["derive", "env"] }
env_logger = "0.9"
log = "0.4"
parse_int = "0.6"
regex = "1"
ron = "0.7"
serde = { version = "1", features = ["derive"] }
tempfile = "3"
