[package]
name = "erc20_token"
version = "0.1.0"
edition = "2021"
publish = false

[dependencies]
casper-contract = { version = "1.4.4", default-features = false }
casper-types = "1.5.0"
