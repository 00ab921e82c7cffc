[package]
name = "ethereum_gravity"
version = "0.1.0"
edition = "2021"
publish = false

[dependencies]
ethers = "2.0"
