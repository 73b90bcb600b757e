[package]
name = "toph_proto"
version = "0.1.0"
edition = "2021"
publish = false

[dependencies]
iroh-base = "*"
iroh = "*"
postcard = { version = "1", features = ["use-std"] }
serde = { version = "1", features = ["derive"] }
anyhow = "1"
futures = "0.3"
wasm-bindgen = "0.2"
wasm-bindgen-futures = "0.4"
js-sys = "0.3"
console_error_panic_hook = "0.1"
