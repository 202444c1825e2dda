[package]
name = "scrim_bot"
version = "0.1.0"
edition = "2021"
publish = false

[dependencies]
time = "0.3"
base64 = "*"
serde_json = "*"
toml = "*"
