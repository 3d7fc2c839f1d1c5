[package]
name = "x86_decoder"
version = "0.1.0"
edition = "2021"
publish = false

[dependencies]
yaxpeax-arch = "0.0.1"
