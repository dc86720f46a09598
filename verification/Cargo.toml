[package]
name = "ding"
version = "0.1.0"
edition = "2021"
publish = false

[dependencies]
kira = "*"
nix = { version = "*", features = ["process"] }
