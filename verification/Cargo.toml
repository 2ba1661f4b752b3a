[package]
name = "hackernews_tim"
version = "0.1.0"
edition = "2021"
publish = false

[dependencies]
toml_edit = "=0.22.27"
regex = "=1.13.1"
toml = "1"
serde = { version = "=1.0.229", features = ["derive"] }
keyring = "=3.6.3"
anyhow = "=1.0.104"
once_cell = "=1.21.4"
config_parser2 = "=0.1.7"
cursive = { version = "=0.20.0", default-features = false }
crossbeam-channel = "=0.5.17"
tracing = "=0.1.44"
