[package]
name = "ascii_art"
version = "0.1.0"
edition = "2021"
publish = false

[dependencies]
image = { version = "=0.25.10", default-features = false, features = ["png", "jpeg"] }
egui = { version = "0.28", default-features = false }
rfd = { version = "0.14", default-features = false, features = ["xdg-portal", "async-std"] }
wasm-bindgen-futures = "0.4"
web-sys = { version = "0.3", features = ["Window", "Document", "Element"] }
