[package]
name = "topgrade_config"
version = "0.1.0"
edition = "2021"
publish = false

[dependencies]
clap = { version = "4", features = ["derive"] }
clap_complete = "4"
color-eyre = "0.6"
etcetera = "0.8"
indexmap = { version = "2", features = ["serde"] }
regex = "1"
regex-split = "0.1"
serde = { version = "1", features = ["derive"] }
shell-words = "1"
shellexpand = "3"
toml = "0.8"
tracing = "0.1"
which = "6"
