[package]
name = "raffle"
version = "0.1.0"
edition = "2021"
publish = false

[dependencies]
base64 = "0.21"
rand_chacha = "0.3"
rand_core = "0.6"
sha2 = "0.10"
cosmwasm-std = "1"
cw-storage-plus = "1"
serde = { version = "1", features = ["derive"] }
