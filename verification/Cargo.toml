[package]
name = "floatwm"
version = "0.1.0"
edition = "2021"
publish = false

[dependencies]
xcb = "1"
log = "0.4"
env_logger = "0.10"
