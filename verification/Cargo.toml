[package]
name = "registry"
version = "0.1.0"
edition = "2021"
publish = false

[dependencies]
anchor-lang = "=0.32.2"
ephemeral-rollups-sdk = { version = "=0.17.3", features = ["anchor-compat"] }
