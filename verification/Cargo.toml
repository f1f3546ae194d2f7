[package]
name = "flac_bound"
version = "0.1.0"
edition = "2021"
publish = false

[dependencies]
flac-sys = "*"
