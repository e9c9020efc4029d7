[package]
name = "vortex_wasm"
version = "0.1.0"
edition = "2021"
publish = false

[dependencies]
bytes = "=1.12.1"
console_error_panic_hook = "=0.1.7"
futures-channel = "=0.3.34"
futures-util = "=0.3.34"
js-sys = "=0.3.106"
vortex = "0.21"
wasm-bindgen = "=0.2.129"
wasm-bindgen-futures = "=0.4.79"
web-sys = { version = "=0.3.106", features = ["Blob", "FileReader", "ReadableStream", "ReadableStreamByobReader", "ReadableStreamGetReaderOptions", "ReadableStreamReadResult", "ReadableStreamReaderMode", "console"] }
