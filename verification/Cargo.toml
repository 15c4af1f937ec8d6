[package]
name = "suspendable_reedline"
version = "0.1.0"
edition = "2021"
publish = false

[dependencies]
reedline = "*"
crossterm = "*"
nix = { version = "*", features = ["signal"] }
thiserror = "*"
