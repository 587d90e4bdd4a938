[package]
name = "wasm_task"
version = "0.1.0"
edition = "2021"
publish = false

[dependencies]
anyhow = "=1.0.104"
once_cell = "=1.21.4"
wasmtime = { version = "=36.0.20", default-features = false, features = ["runtime", "std"] }
