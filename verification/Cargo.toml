[package]
name = "chain_forks"
version = "0.1.0"
edition = "2021"
publish = false

[dependencies]
ckb-types = "*"
ckb-jsonrpc-types = "*"
ckb-app-config = "*"
log = "*"
