[package]
name = "r68k"
version = "0.1.0"
edition = "2021"
publish = false

[dependencies]
libc = "=0.2.191"

[dev-dependencies]
itertools = "=0.15.0"
