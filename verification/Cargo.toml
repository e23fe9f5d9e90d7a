[package]
name = "wasm_webtransport"
version = "0.1.0"
edition = "2021"
publish = false

[dependencies]
serde_json = "=1.0.154"
tokio = { version = "=1.54.1", default-features = false, features = ["sync", "macros"] }
wasm-bindgen = "=0.2.129"
wasm-bindgen-futures = "=0.4.79"
js-sys = "=0.3.106"
web-sys = { version = "=0.3.106", features = ["console"] }
console_error_panic_hook = "=0.1.7"
xwt-core = "=0.5.0"
xwt-web-sys = "=0.13.0"
