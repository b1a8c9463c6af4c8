[package]
name = "atina"
version = "0.1.0"
edition = "2021"
publish = false

[dependencies]
fnv = "1"
rustc-serialize = "0.3"
tcod = "*"
toml = "0.2"
version = "*"
