[package]
name = "ledger_core"
version = "0.1.0"
edition = "2021"
publish = false

[dependencies]
exonum = "0.9"
exonum-time = "0.9"
