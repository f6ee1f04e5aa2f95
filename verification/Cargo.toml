[package]
name = "offchain_indexing"
version = "0.1.0"
edition = "2021"
publish = false

[dependencies]
parity-scale-codec = "=3.7.5"
kvdb = "=0.13.0"
log = "=0.4.34"
structopt = "=0.3.26"
sp-blockchain = "*"
sp-core = "*"
sp-runtime = "*"
sp-state-machine = "*"
sp-externalities = "*"
