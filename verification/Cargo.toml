[package]
name = "native_version"
version = "1.2.3"
edition = "2021"
publish = false

[dependencies]
napi = "*"
napi-derive = "*"
