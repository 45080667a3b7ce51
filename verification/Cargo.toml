[package]
name = "display_list"
version = "0.1.0"
edition = "2021"
publish = false

[dependencies]
mupdf-sys = "=0.8.0"

[dev-dependencies]
crossbeam-utils = "0.8"
