[package]
name = "ffi_gen"
version = "0.1.0"
edition = "2021"
publish = false

[dependencies]
anyhow = "1"
genco = "0.15"
heck = "0.3"
tempfile = "3"
trybuild = "1"
