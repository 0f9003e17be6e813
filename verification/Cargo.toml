[package]
name = "pwa_marketplace"
version = "0.1.0"
edition = "2021"
publish = false

[dependencies]
url = "*"
dirs = "*"

[dev-dependencies]
tempfile = "*"
