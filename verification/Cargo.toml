[package]
name = "runst"
version = "0.1.0"
edition = "2021"
publish = false

[dependencies]
tera = { version = "1", default-features = false }
humantime = "2"
colorsys = "0.6"
calloop = "0.13"
calloop-wayland-source = "0.3"
wayland-client = "0.31"
smithay-client-toolkit = { version = "0.19", default-features = false, features = ["calloop"] }
cairo-rs = "0.20"
pango = "0.20"
pangocairo = "0.20"
