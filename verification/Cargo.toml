[package]
name = "moe_logger"
version = "0.2.0"
edition = "2021"
publish = false

[dependencies]
env_logger = "0.10"
log = "0.4"
tokio-uring = "0.4"
