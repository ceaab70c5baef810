[package]
name = "fast_attributes"
version = "0.1.0"
edition = "2021"
publish = false

[dependencies]
ordermap = "0.4"
indexmap = "*"
lazy_static = "*"
libc = "*"
libcruby-sys = "*"
