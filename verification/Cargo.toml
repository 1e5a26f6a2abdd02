[package]
name = "name_id"
version = "0.1.0"
edition = "2021"

[dependencies]
ahash = { version = "=0.8.12", default-features = false }
syn = "=3.0.6"
