[package]
name = "ninlab_core_rs"
version = "0.1.0"
edition = "2021"
publish = false

[dependencies]
rayon = "1"
pyo3 = "0.22"
numpy = "0.22"
kamadak-exif = "0.5"
