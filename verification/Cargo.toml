[package]
name = "keychord"
version = "0.1.0"
edition = "2021"
publish = false

[dependencies]
anyhow = "1"
rdev = "0.5"
