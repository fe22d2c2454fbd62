[package]
name = "zenwasm"
version = "0.1.0"
edition = "2021"
publish = false

[dependencies]
wasmtime = "43.0.2"
libloading = "*"
thiserror = "2"
