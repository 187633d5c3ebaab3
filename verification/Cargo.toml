[package]
name = "nix_bindings"
version = "0.1.0"
edition = "2021"
publish = false

[dependencies]
anyhow = "=1.0.104"
thiserror = "=2.0.21"
harmonia-store-core = "=0.0.0-alpha.0"
