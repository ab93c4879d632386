[package]
name = "cloudfree_mcp"
version = "0.1.0"
edition = "2021"
publish = false

[dependencies]
serde = { version = "1", features = ["derive"] }
serde_json = "1"
worker = "*"
wasm-bindgen = "*"
wasm-bindgen-futures = "*"
js-sys = "*"
serde-wasm-bindgen = "*"
console_error_panic_hook = "*"
