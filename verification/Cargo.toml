[package]
name = "webtransport"
version = "0.1.0"
edition = "2021"
publish = false

[dependencies]
async-trait = "0.1"
bytes = "1"
js-sys = "0.3"
quinn = { version = "0.10", default-features = false, features = ["runtime-tokio"] }
quinn-proto = { version = "0.10", default-features = false }
thiserror = "1"
tokio = "1"
wasm-bindgen = "0.2"
wasm-bindgen-futures = "0.4"
web-sys = { version = "0.3", features = ["ReadableStream", "ReadableStreamDefaultReader", "ReadableStreamReadResult", "WebTransport", "WebTransportBidirectionalStream", "WebTransportCloseInfo", "WebTransportReceiveStream", "WebTransportSendStream", "WritableStream", "WritableStreamDefaultWriter"] }
