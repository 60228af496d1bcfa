[package]
name = "digitalocean"
version = "0.1.0"
edition = "2021"
publish = false

[dependencies]
tokio = { version = "1", features = ["time", "rt", "macros"] }
hyper = "1"
async-trait = "0.1"
url = "2"
serde_json = "1"
