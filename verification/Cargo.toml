[package]
name = "wyze"
version = "0.1.0"
edition = "2021"
publish = false

[dependencies]
bytes = "1"
log = "0.4"
rusb = "0.9"
simple_logger = { version = "*", default-features = false }
