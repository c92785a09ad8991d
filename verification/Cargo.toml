[package]
name = "notox"
version = "0.1.0"
edition = "2021"
publish = false

[dependencies]
rayon = "*"
serde = "*"
serde_json = "*"
