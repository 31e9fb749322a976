[package]
name = "brf_codec"
version = "0.1.0"
edition = "2021"
publish = false

[dependencies]
braille-ascii = "*"
syn = "*"
quote = "*"
proc-macro2 = "*"
