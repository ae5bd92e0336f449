[package]
name = "wasm_bindgen"
version = "0.2.0"
edition = "2021"
publish = false

[dependencies]
serde = "1"
serde_json = "1"
