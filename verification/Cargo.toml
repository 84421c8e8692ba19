[package]
name = "doodle"
version = "0.1.0"
edition = "2021"
publish = false

[dependencies]
ws = "*"
url = "*"

[dev-dependencies]
serde_json = "*"
