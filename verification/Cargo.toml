[package]
name = "image_editor"
version = "0.1.0"
edition = "2021"
publish = false

[dependencies]
arc-swap = "=1.9.3"
image = { version = "=0.24.9", default-features = false, features = ["png", "jpeg"] }
tokio = { version = "=1.54.1", default-features = false, features = ["sync"] }
egui = "=0.19.0"
eframe = { version = "=0.19.0", features = ["persistence"] }
egui_extras = { version = "=0.19.0", features = ["image"] }
futures = "=0.3.34"
serde = { version = "=1.0.229", features = ["derive"] }
rfd = "0.14"
rayon = "=1.12.0"
wasm-bindgen = "=0.2.129"
wasm-bindgen-futures = "=0.4.79"
wasm-bindgen-rayon = "=1.3.0"
web-sys = { version = "=0.3.106", features = ["Worker", "MessageEvent", "console"] }
