[package]
name = "finch_gen"
version = "0.1.0"
edition = "2021"
publish = false

[dependencies]
toml = "0.5"
log = "0.4"
clang = { version = "*", features = ["runtime"] }
cbindgen = { version = "*", default-features = false }
