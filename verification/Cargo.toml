[package]
name = "bridger"
version = "0.1.0"
edition = "2021"
publish = false

[dependencies]
rlp = "=0.6.1"
secp256k1 = { version = "=0.33.1", features = ["recovery"] }
web3 = { version = "=0.19.0", default-features = false }
array-bytes = "=9.3.0"
