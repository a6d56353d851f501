[package]
name = "cursor_blink"
version = "0.1.0"
edition = "2021"
publish = false

[dependencies]
glib = "*"
cairo-rs = "*"
