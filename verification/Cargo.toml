[package]
name = "arabic_shaping"
version = "0.1.0"
edition = "2021"
publish = false

[dependencies]
unicode-joining-type = "*"
