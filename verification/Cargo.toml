[package]
name = "light_fetch"
version = "0.1.0"
edition = "2021"
publish = false

[dependencies]
blake2-rfc = "=0.2.18"
ethereum-types = "=0.4.2"
fixed-hash = "=0.2.5"
futures = "=0.1.31"
hashdb = "=0.2.1"
heapsize = "=0.4.2"
integer-sqrt = "=0.1.5"
keccak-hasher = "=0.1.1"
memorydb = "=0.2.1"
num-traits = "=0.2.19"
patricia-trie = "=0.2.2"
patricia-trie-ethereum = "=0.1.0"
serde = { version = "=1.0.229", features = ["derive"] }
triehash = "=0.2.3"
