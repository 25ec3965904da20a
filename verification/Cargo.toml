[package]
name = "diagnostics"
version = "0.1.0"
edition = "2021"
publish = false

[dependencies]
flurry = "*"
parking_lot = "*"
atty = "*"
