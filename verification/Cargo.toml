[package]
name = "desktop"
version = "0.1.0"
edition = "2021"
publish = false

[dependencies]
pc-keyboard = "0.5"
spin = "0.9"
lazy_static = "1"
