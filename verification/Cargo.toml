[package]
name = "stdlib_natives"
version = "0.1.0"
edition = "2021"
publish = false

[dependencies]
sha2 = "0.10"
sha3 = "0.10"
ripemd = "0.1"
lazy_static = "1.4"
