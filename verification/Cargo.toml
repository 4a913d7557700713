[package]
name = "fex"
version = "0.1.0"
edition = "2021"
publish = false

[dependencies]
tiff = "*"
fitrs = "*"

[dev-dependencies]
tempfile = "*"
