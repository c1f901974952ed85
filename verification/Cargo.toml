[package]
name = "tls_attestation"
version = "0.1.0"
edition = "2021"
publish = false

[dependencies]
rsa = "0.9"
sha2 = "0.10"
subtle = "2"
tss-esapi = "7"
