[package]
name = "deferred_engine"
version = "0.1.0"
edition = "2021"
publish = false

[dependencies]
num = "=0.4.3"
ash = "=0.38.0"
ash-window = "*"
winit = "=0.30.13"
anyhow = "=1.0.104"
log = "*"
env_logger = "*"
