[package]
name = "wasi_async_runtime"
version = "0.1.0"
edition = "2021"
publish = false

[dependencies]
slab = "*"
bytes = "*"
wasi = "*"
futures-lite = "*"
