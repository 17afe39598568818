[package]
name = "pixel_views"
version = "0.1.0"
edition = "2021"
publish = false

[dependencies]
fast_image_resize = "*"
pyo3 = "*"
rayon = "*"
