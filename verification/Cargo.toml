[package]
name = "rust_phys"
version = "0.1.0"
edition = "2021"
publish = false

[dependencies]
flo_draw = "0.3"
rand = "0.8"
