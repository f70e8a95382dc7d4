[package]
name = "millau_bridge"
version = "0.1.0"
edition = "2021"
publish = false

[dependencies]
parity-scale-codec = "=3.7.5"
sp-core = "=43.0.0"
sp-crypto-hashing = "=0.1.0"
sp-runtime = "*"
