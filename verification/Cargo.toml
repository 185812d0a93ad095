[package]
name = "axvmconfig"
version = "0.1.0"
edition = "2021"
publish = false

[dependencies]
axerrno = "*"
clap = { version = "4.5", features = ["derive"] }
env_logger = "0.11"
log = "0.4"
serde = { version = "1.0", features = ["derive"] }
serde_repr = "0.1"
toml = "0.9"
