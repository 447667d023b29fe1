[package]
name = "ares_cli"
version = "0.1.0"
edition = "2021"
publish = false

[dependencies]
clap = { version = "*", features = ["derive"] }
env_logger = "*"
lemmeknow = "*"
log = "*"
