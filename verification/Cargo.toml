[package]
name = "eid"
version = "0.1.0"
edition = "2021"
publish = false

[dependencies]
openmls = "0.5"
openmls_rust_crypto = "0.2"
openmls_basic_credential = "0.2"
openmls_traits = "0.2"
tls_codec = "0.3"
rand = "0.8"
serde_json = "1"
