[package]
name = "nexrad-workbench"
version = "0.1.0"
edition = "2021"
publish = false

[dependencies]
chrono = { version = "=0.4.45", default-features = false, features = ["std", "clock"] }
eframe = { version = "=0.33.3", default-features = false, features = ["default_fonts", "glow", "x11"] }
egui_glow = "=0.33.3"
egui-phosphor = "=0.11.0"
geo-types = "=0.7.20"
glow = "=0.16.0"
js-sys = "=0.3.107"
log = "=0.4.35"
nexrad-render = "=1.0.0"
wasm-bindgen = "=0.2.130"
web-sys = { version = "=0.3.107", features = ["Window"] }
