[package]
name = "fast_shard"
version = "0.1.0"
edition = "2021"
publish = false

[dependencies]
fnv = "1.0"
xxhash-rust = { version = "0.8", features = ["xxh3"] }
