[package]
name = "wasmer_engine_universal"
version = "0.1.0"
edition = "2021"
publish = false

[dependencies]
rustix = { version = "*", features = ["param", "mm"] }
rkyv = "0.7"
