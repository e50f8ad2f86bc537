[package]
name = "resvg_extended"
version = "0.48.1"
edition = "2021"
publish = false

[dependencies]
resvg = "=0.48.1"
