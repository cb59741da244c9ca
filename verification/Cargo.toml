[package]
name = "rocket_enumform"
version = "0.1.0"
edition = "2021"
publish = false

[dependencies]
rocket = "0.5"
serde = "1"
serde_urlencoded = "0.7"
