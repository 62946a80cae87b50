[package]
name = "merkle_root_multisig"
version = "0.1.0"
edition = "2021"
publish = false

[dependencies]
sha3 = "0.10"
async-trait = "0.1"
derive_more = "0.99"
derive-new = "0.5"
eyre = "0.6"
tracing = "0.1"
