[package]
name = "theme_atlas"
version = "0.1.0"
edition = "2021"
publish = false

[dependencies]
gift = "=0.13.0"
ndarray = "=0.17.2"
rusttype = "=0.9.3"
shakmaty = "=0.29.4"
