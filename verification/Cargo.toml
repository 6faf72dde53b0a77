[package]
name = "wirm"
version = "0.1.0"
edition = "2021"
publish = false

[dependencies]
wasmparser = "=0.263.0"
wasm-encoder = { version = "=0.263.0", features = ["wasmparser"] }

[dev-dependencies]
wat = "=1.263.0"
