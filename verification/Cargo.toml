[package]
name = "hotreload"
version = "0.1.0"
edition = "2021"
publish = false

[dependencies]
anyhow = "1"
wasmtime = "24"
wasmtime-wasi = "24"
macroquad = "0.4"
