[package]
name = "rwa_tokenization"
version = "0.1.0"
edition = "2021"
publish = false

[dependencies]
anchor-lang = { version = "=0.31.2", features = ["init-if-needed"] }
anchor-spl = { version = "=0.31.2" }
spl-discriminator = "=0.4.1"
spl-tlv-account-resolution = "=0.9.0"
spl-transfer-hook-interface = "=0.9.0"
