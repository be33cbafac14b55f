[package]
name = "str_similarity"
version = "0.1.0"
edition = "2021"
publish = false

[dependencies]
textdistance = "1"
nu-plugin = "0.90"
nu-protocol = { version = "0.90", features = ["plugin"] }
