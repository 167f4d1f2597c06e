[package]
name = "yield_progress"
version = "0.1.7"
edition = "2021"
publish = false

[dependencies]
log = "0.4"
web-time = "1"
