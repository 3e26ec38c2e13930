[package]
name = "pkg-builder"
version = "0.1.0"
edition = "2021"
publish = false

[dependencies]
eyre = "0.6"
log = "0.4"
rand = "0.8"
shellexpand = "3"

[dev-dependencies]
tempfile = "3"
