[package]
name = "wasmer_js"
version = "0.1.0"
edition = "2021"
publish = false

[dependencies]
js-sys = "=0.3.107"
wasm-bindgen = "=0.2.130"
virtual-fs = { version = "=0.704.2", default-features = false, features = ["js"] }
shared-buffer = "=0.1.4"
futures = "=0.3.34"
tracing = "=0.1.44"
bytes = "=1.12.1"
tokio = { version = "=1.54.1", default-features = false, features = ["io-util", "sync"] }
wasm-bindgen-futures = "=0.4.80"
web-sys = { version = "=0.3.107", features = ["console"] }
wasmer-types = "=7.4.2"
