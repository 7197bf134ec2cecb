[package]
name = "extrinsic_factory"
version = "0.1.0"
edition = "2021"
publish = false

[dependencies]
rand = "0.6"
parity-codec = "3.5"
sp-core = "*"
sp-runtime = "*"
sp-io = "*"
sp-keyring = "*"
