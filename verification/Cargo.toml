[package]
name = "hlwm_bar"
version = "0.1.0"
edition = "2021"
publish = false

[dependencies]
chrono = "0.4"
regex = "1"
cairo-rs = { version = "0.9", features = ["xcb"] }
cairo-sys-rs = { version = "0.10", features = ["xcb"] }
pango = "0.9"
pangocairo = "0.10"
xcb = "0.9"
