[package]
name = "zconf"
version = "0.1.0"
edition = "2021"
publish = false

[dependencies]
anyhow = "1"
atomicwrites = "0.4"
log = "0.4"
notify = "*"
serde = "1"
serde_json = "1"
toml = "*"
