[package]
name = "generate_previsbines"
version = "0.1.0"
edition = "2021"
publish = false

[dependencies]
clap = { version = "4", features = ["derive"] }
env_logger = "0.11"
log = "0.4"
regex = "1"
serde = { version = "1", features = ["derive"] }
toml = "0.8"
winreg = "*"
