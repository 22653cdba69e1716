[package]
name = "rkos_builder"
version = "0.1.0"
edition = "2021"
publish = false

[dependencies]
regex = "1"
dagrs = "0.2"
clap = { version = "4", features = ["derive"] }
requestty = "0.5"
glob = "0.3"
serde = { version = "1", features = ["derive"] }
serde_json = "1"
log = "0.4"
downloader = "0.2"
