[package]
name = "ckb_lock_script"
version = "0.1.0"
edition = "2021"
publish = false

[dependencies]
anyhow = "1"
bech32 = "=0.8.1"
ckb-hash = "=0.202.0"
ckb-idl-client = "=0.1.0"
ckb-jsonrpc-types = "=0.202.0"
ckb-sdk = "=4.4.0"
ckb-std = "=1.1.0"
ckb-types = "=0.202.0"
dotenvy = "0.15"
hex = "=0.4.3"
rand = "0.8"
secp256k1 = { version = "=0.30.0", features = ["rand", "recovery"] }
serde_json = "1"
sha2 = "=0.10.9"
