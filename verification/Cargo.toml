[package]
name = "avif_bridge"
version = "0.1.0"
edition = "2021"
publish = false

[dependencies]
image = { version = "=0.25.10", default-features = false, features = ["bmp", "gif", "ico", "jpeg", "png", "pnm", "qoi", "tga", "tiff", "webp"] }
ravif = { version = "=0.13.0", default-features = false, features = ["threading"] }
rgb = "=0.8.53"
wasm-bindgen = "=0.2.129"
