[package]
name = "cmsis_dap"
version = "0.1.0"
edition = "2021"
publish = false

[dependencies]
rusb = "0.9"
log = "0.4"
pretty_env_logger = "0.5"
thiserror = "1"
