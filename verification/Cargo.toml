[package]
name = "dos_like"
version = "0.1.0"
edition = "2021"
publish = false

[dependencies]
smallvec = "1"
