[package]
name = "rubato"
version = "0.13.0"
edition = "2021"
publish = false

[dependencies]
audio = "*"
