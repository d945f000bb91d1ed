[package]
name = "valex"
version = "0.1.0"
edition = "2021"
publish = false

[dependencies]
anyhow = "=1.0.104"
clap = { version = "=4.6.7", features = ["derive"] }
regex = "=1.13.1"
serde = { version = "=1.0.229", features = ["derive"] }
serde_json = "=1.0.154"
serde_json5 = "=0.2.1"
slug = "=0.1.6"
system_env = "=0.10.5"
uzers = "=0.12.2"
