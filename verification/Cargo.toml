[package]
name = "semantic_rs"
version = "2.0.0"
edition = "2021"
publish = false

[dependencies]
cargo_toml = "0.14"
clap = "2"
env_logger = "0.7"
futures = "0.3"
git2 = "0.13"
hubcaps = "0.6"
log = "0.4"
regex = "1"
semver = "0.9"
toml = "0.7"
