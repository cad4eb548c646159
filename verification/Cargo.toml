[package]
name = "wasm_compose"
version = "0.1.0"
edition = "2021"
publish = false

[dependencies]
wasmtime = { version = "=48.0.8", default-features = false, features = ["runtime", "component-model", "std"] }
thiserror = "=2.0.21"
