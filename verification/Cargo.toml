[package]
name = "log_error"
version = "0.1.0"
edition = "2021"
publish = false

[dependencies]
log = "0.4"
