[package]
name = "devcgroup"
version = "0.1.0"
edition = "2021"
publish = false

[dependencies]
anyhow = "=1.0.104"
log = "=0.4.34"
nix = { version = "=0.31.3", features = ["process"] }
