[package]
name = "billbot"
version = "0.1.0"
edition = "2021"
publish = false

[dependencies]
gloo = "0.11"
serde = { version = "1", features = ["derive"] }
wasm-bindgen = "0.2"
wasm-bindgen-futures = "0.4"
wasm-logger = "0.2"
web-sys = { version = "0.3", features = ["File", "FileReader"] }
yew = { version = "0.21", features = ["csr"] }
