[package]
name = "archinstaller"
version = "0.1.0"
edition = "2021"
publish = false

[dependencies]
regex = "1"
log = "0.4"
human-panic = "*"
