[package]
name = "coremark_runner"
version = "0.1.0"
edition = "2021"
publish = false

[dependencies]
wasm3 = "=0.3.1"
wasmi = "=0.31.2"
wasmtime = { version = "=36.0.19", default-features = false, features = ["cranelift", "runtime", "std"] }
