[package]
name = "web_extensions"
version = "0.2.0"
edition = "2021"
publish = false

[dependencies]
serde = { version = "1", features = ["derive"] }
serde_json = "1"
wasm-bindgen = "0.2"
js-sys = "0.3"
web-extensions-sys = "*"
gloo-console = "*"
thiserror = "*"
derive_more = { version = "*", features = ["display"] }
