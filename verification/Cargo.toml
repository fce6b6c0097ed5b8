[package]
name = "prover"
version = "0.1.0"
edition = "2021"
publish = false

[dependencies]
eyre = "0.6"
