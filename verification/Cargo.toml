[package]
name = "toywatch"
version = "0.1.0"
edition = "2021"
publish = false

[dependencies]
clap = { version = "4", features = ["derive"] }
env_logger = "*"
futures = "0.3"
image = "*"
log = "0.4"
miniquad = "*"
notify = "*"
serde = { version = "1", features = ["derive"] }
toml = "*"
