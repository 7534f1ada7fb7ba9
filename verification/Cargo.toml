[package]
name = "web3_wallet"
version = "0.1.0"
edition = "2021"
publish = false

[dependencies]
aes-gcm = "0.10"
ethers = { version = "2.0", default-features = false }
rand = "0.8"
rust-argon2 = "2"
tokio = { version = "1", features = ["macros", "rt-multi-thread"] }
