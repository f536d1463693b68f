[package]
name = "ls_types"
version = "0.1.0"
edition = "2021"
publish = false

[dependencies]
clap = { version = "*", features = ["derive"] }
eyre = "*"
fasthash = "*"
fluent-uri = "*"
percent-encoding = "*"
serde = { version = "*", features = ["derive"] }
serde_json = "*"
smol_str = { version = "*", features = ["serde"] }
toml = "*"
