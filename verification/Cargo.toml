[package]
name = "object_read"
version = "0.1.0"
edition = "2021"
publish = false

[dependencies]
async-graphql = { version = "*", default-features = false }
bs58 = "0.4.0"
sui_types = "*"
