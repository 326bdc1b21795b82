[package]
name = "monkebot"
version = "0.1.0"
edition = "2021"
publish = false

[dependencies]
rmp-serde = "*"
ron = "*"
rand = "*"
chrono = "*"
serde = "*"
