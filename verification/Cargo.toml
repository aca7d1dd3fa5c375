[package]
name = "reauthfi"
version = "0.1.0"
edition = "2021"
publish = false

[dependencies]
regex = "1"
reqwest = { version = "0.12", default-features = false, features = ["blocking"] }
colored = "2"
clap = { version = "4", features = ["derive"] }
napi = "2"
napi-derive = "2"
