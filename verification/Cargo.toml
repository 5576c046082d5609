[package]
name = "cshell"
version = "0.1.0"
edition = "2021"
publish = false

[dependencies]
anyhow = "1"
chrono = "0.4"
clap = { version = "4", features = ["derive", "env"] }
comfy-table = "7"
directories = "5"
futures = "0.3"
hex = "0.4"
indexmap = "2"
inquire = "0.7"
miette = "7"
num-format = "0.4"
pallas = "*"
prost = "*"
regex = "1"
serde = { version = "1", features = ["derive"] }
serde_json = "1"
slug = "0.1"
strum = { version = "0.26", features = ["derive"] }
tokio = { version = "1", features = ["rt-multi-thread", "macros"] }
toml = "0.8"
tracing = "0.1"
tracing-subscriber = "0.3"
tx3-sdk = "*"
utxorpc = "*"
