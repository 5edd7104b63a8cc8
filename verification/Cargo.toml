[package]
name = "ovh"
version = "0.1.0"
edition = "2021"
publish = false

[dependencies]
sha1 = "0.6"
configparser = "3"
serde = "1"
serde_json = "1"
reqwest = { version = "0.12", default-features = false }
