[package]
name = "rosie_sys"
version = "0.1.0"
edition = "2021"
publish = false

[dependencies]
libc = "*"
cc = "*"
pkg-config = "*"
