[package]
name = "storage_chain"
version = "0.1.0"
edition = "2021"
publish = false

[dependencies]
array-bytes = "=6.2.3"
parity-scale-codec = "=3.7.5"
serde_json = "=1.0.154"
sp-consensus-aura = "0.26"
sp-core = "=22.0.0"
sp-io = "=24.0.0"
staging-xcm = "=1.0.0"
staging-xcm-executor = "=1.0.0"
