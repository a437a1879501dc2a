[package]
name = "evm2cpp"
version = "0.1.0"
edition = "2021"
publish = false

[dependencies]
anyhow = "1"
bitvec = "1"
clap = "3"
ethereum-types = { version = "*", default-features = false, features = ["std"] }
hexutil = "*"
lazy_static = "1"
serde = { version = "1", features = ["derive"] }
serde_json = "1"
