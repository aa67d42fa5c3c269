[package]
name = "transmission_rpc"
version = "0.1.0"
edition = "2021"
publish = false

[dependencies]
url = "2"
semver = "1"
serde = { version = "1", features = ["derive"] }
serde_json = "1"
serde_repr = "0.1"
log = "0.4"
reqwest = { version = "0.12", default-features = false, features = ["json"] }
