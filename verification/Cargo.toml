[package]
name = "nes"
version = "0.1.0"
edition = "2021"
publish = false

[dependencies]
anyhow = "=1.0.104"
clap = { version = "=3.1.18", features = ["derive", "env"] }
env_logger = "=0.9.3"
evalexpr = "=7.2.0"
log = "=0.4.34"
thiserror = "=1.0.69"
