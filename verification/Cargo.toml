[package]
name = "edgedb_cli"
version = "0.1.0"
edition = "2021"
publish = false

[dependencies]
anyhow = "=1.0.104"
async-std = "=1.13.2"
edgedb-client = "=0.3.0"
fs-err = "=2.11.0"
indicatif = "=0.18.6"
log = "=0.4.34"
serde = { version = "=1.0.229", features = ["derive"] }
serde_json = "=1.0.154"
