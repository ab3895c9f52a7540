[package]
name = "pride_flags"
version = "0.1.0"
edition = "2021"
publish = false

[dependencies]
knuffel = "*"
ratatui = "*"
