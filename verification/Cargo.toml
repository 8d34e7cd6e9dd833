[package]
name = "preferred_color_scheme"
version = "0.1.0"
edition = "2021"
publish = false

[dependencies]
dioxus = { version = "0.4", default-features = false }
wasm-bindgen = "0.2"
web-sys = { version = "0.3", features = ["Window", "MediaQueryList"] }
