[package]
name = "nix_remote"
version = "0.1.0"
edition = "2021"
publish = false

[dependencies]
anyhow = "1"
serde_bytes = "0.11"
thiserror = "1"
