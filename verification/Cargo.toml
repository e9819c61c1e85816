[package]
name = "py_proj"
version = "0.1.0"
edition = "2021"
publish = false

[dependencies]
anyhow = "*"
clap = { version = "*", features = ["derive"] }
owo-colors = "*"
which = "*"

[dev-dependencies]
serde_json = "*"
toml = "*"
