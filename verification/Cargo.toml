[package]
name = "batmon"
version = "0.1.0"
edition = "2021"
publish = false

[dependencies]
clap = { version = "*", features = ["derive"] }
libnotify = "*"
log = "*"
pretty_env_logger = "*"
strum = { version = "*", features = ["derive"] }
