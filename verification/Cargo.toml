[package]
name = "nri_mux"
version = "0.1.0"
edition = "2021"
publish = false

[dependencies]
ttrpc = "0.8"
libc = "0.2"
lazy_static = "1.4"
