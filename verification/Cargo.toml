[package]
name = "freetype"
version = "0.1.0"
edition = "2021"
publish = false

[dependencies]
freetype-sys = "*"
libc = "0.2"
null-terminated = "*"
fallible = "*"
