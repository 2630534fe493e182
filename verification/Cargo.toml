[package]
name = "mos6502"
version = "0.1.0"
edition = "2021"

[dependencies]
eframe = { version = "0.22", default-features = false, features = ["glow", "default_fonts"] }
wasm-bindgen = "0.2"
