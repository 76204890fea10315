[package]
name = "cops"
version = "0.1.0"
edition = "2021"
publish = false

[dependencies]
spin = "*"
axconfig = "=0.3.0-preview.3"
