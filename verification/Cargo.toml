[package]
name = "counter_widget"
version = "0.1.0"
edition = "2021"
publish = false

[dependencies]
dioxus = "0.4"
dioxus-web = "0.4"
wasm-bindgen = "0.2"
web-sys = { version = "0.3", features = ["HtmlElement"] }
