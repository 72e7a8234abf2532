[package]
name = "glib_subclass"
version = "0.1.0"
edition = "2021"
publish = false

[dependencies]
glib-sys = "0.8"
gobject-sys = "0.8"
