[package]
name = "twister"
version = "0.1.0"
edition = "2021"
publish = false

[dependencies]
env_logger = "0.4"
log = "0.3"
