[package]
name = "sqlite-dist"
version = "0.1.0"
edition = "2021"
publish = false

[dependencies]
base64 = "0.21"
semver = "1"
sha2 = "0.10"
thiserror = "1"
zip = { version = "0.6", default-features = false }
