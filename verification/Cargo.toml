[package]
name = "spinners"
version = "0.1.0"
edition = "2021"
publish = false

[dependencies]
egui = "0.27"
egui_plot = "0.27"
log = "0.4"
wasm-bindgen-futures = "0.4"
