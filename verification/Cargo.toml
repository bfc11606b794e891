[package]
name = "stream-pay-core"
version = "0.1.0"
edition = "2021"
publish = false

[dependencies]
solana-program = "=1.10.41"
solana-sdk = "=1.10.41"
spl-memo = "=3.0.1"
thiserror = "=1.0.69"
