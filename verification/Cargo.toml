[package]
name = "lvgl_display"
version = "0.1.0"
edition = "2021"
publish = false

[dependencies]
cty = "=0.2.2"
embedded-graphics = "=0.6.2"
lvgl-sys = "=0.2.0"
