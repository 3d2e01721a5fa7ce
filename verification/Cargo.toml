[package]
name = "minicl"
version = "0.1.0"
edition = "2021"
publish = false

[dependencies]
cl-sys = "0.4"
