[package]
name = "dna_help"
version = "0.1.0"
edition = "2021"
publish = false

[dependencies]
hdk = "=0.0.100"
serde = "=1.0.123"
thiserror = "=1.0.69"
rmp = "=0.8.10"
