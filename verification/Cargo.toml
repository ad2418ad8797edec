[package]
name = "cargo-dist"
version = "0.1.0"
edition = "2021"
publish = false

[dependencies]
camino = "=1.2.6"
semver = "=1.0.28"
sha2 = "=0.11.1"
sha3 = "=0.12.0"
blake2 = "=0.11.0"
serde_json = "1"

[dev-dependencies]
toml_edit = "=0.25.17"
