[package]
name = "rund"
version = "0.1.0"
edition = "2021"
publish = false

[dependencies]
sha2 = "0.10"
arboard = { version = "3", default-features = false }
dunce = "1"
