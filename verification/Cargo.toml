[package]
name = "jty_converter"
version = "0.1.0"
edition = "2021"
publish = false

[dependencies]
serde_json = "1"
toml = "*"
serde_yaml = "*"
clap = { version = "4", features = ["derive"] }
console = "*"
