[package]
name = "sector_update"
version = "0.1.0"
edition = "2021"
publish = false

[dependencies]
anyhow = "1"
filecoin-proofs = { version = "*", default-features = false }
