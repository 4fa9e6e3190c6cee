[package]
name = "zerox_client"
version = "0.1.0"
edition = "2021"
publish = false

[dependencies]
ethers-core = "=2.0.14"
serde_json = "=1.0.151"

[dependencies.reqwest]
version = "=0.13.5"
default-features = false
features = ["query"]
