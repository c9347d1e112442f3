[package]
name = "ics_guardian"
version = "0.1.0"
edition = "2021"
publish = false

[dependencies]
console_error_panic_hook = "0.1"
gloo-timers = "0.3"
js-sys = "0.3"
leptos = { version = "*", features = ["csr"] }
wasi = "*"
wasm-bindgen = "0.2"
wasm-bindgen-futures = "0.4"
web-sys = { version = "0.3", features = ["HtmlInputElement", "HtmlSelectElement", "MouseEvent"] }
