[package]
name = "zombodb"
version = "0.1.0"
edition = "2021"
publish = false

[dependencies]
serde_json = "1"
serde_cbor = "0.11"
num_cpus = "1"
ureq = { version = "2", features = ["json"] }
rustls = "0.23"
rustls-native-certs = "0.8"
