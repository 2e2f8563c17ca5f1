[package]
name = "tchatchers_front"
version = "0.1.0"
edition = "2021"
publish = false

[dependencies]
base64 = "=0.21.7"
serde = { version = "=1.0.229", features = ["derive"] }
serde_json = "=1.0.154"
uuid = { version = "=1.29.1", features = ["v4"] }
chrono = "=0.4.45"
proc-macro2 = "=1.0.107"
quote = "=1.0.47"
syn = { version = "=2.0.119", features = ["full", "extra-traits"] }
js-sys = "=0.3.107"
wasm-bindgen = "=0.2.130"
web-sys = { version = "=0.3.107", features = ["Window", "Document", "HtmlDocument", "Location", "Navigator"] }
gloo-net = "=0.5.0"
wasm-bindgen-futures = "0.4"
futures = "0.3"
bincode = "1"
