[package]
name = "yarn_distro"
version = "0.1.0"
edition = "2021"
publish = false

[dependencies]
semver = "0.9"
