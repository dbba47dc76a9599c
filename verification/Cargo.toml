[package]
name = "voxlume"
version = "0.1.0"
edition = "2021"
publish = false

[dependencies]
chrono = { version = "0.4", default-features = false, features = ["alloc"] }
leptos = "0.8"
leptos_router = "0.8"
leptos_meta = "0.8"
web-sys = { version = "0.3", features = ["Storage", "Window", "Document", "Element", "TouchEvent", "MouseEvent", "SubmitEvent", "HtmlInputElement"] }
wasm-bindgen = "0.2"
tracing = "0.1"
