[package]
name = "routemeta"
version = "0.1.0"
edition = "2021"
publish = false

[dependencies]
toml = "*"
semver = "*"
chrono = "*"
rust_iso3166 = "*"
