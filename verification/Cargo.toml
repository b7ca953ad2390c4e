[package]
name = "scap"
version = "0.1.0"
edition = "2021"
publish = false

[dependencies]
windows-capture = "=1.0.68"
