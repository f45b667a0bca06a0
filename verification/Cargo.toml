[package]
name = "sandbox_host"
version = "0.1.0"
edition = "2021"
publish = false

[dependencies]
log = "0.4"
parity-scale-codec = "=3.7.5"
sc-allocator = "=4.1.0"
sc-executor-common = "=0.10.0"
sp-wasm-interface = "=7.0.0"
# Not used by name: sp-core asks for substrate-bip39 0.4, and only up to this
# patch does that crate share sp-core's version of schnorrkel.
substrate-bip39 = "=0.4.4"
wasmedge-sdk = "=0.7.1"
