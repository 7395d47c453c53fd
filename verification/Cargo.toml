[package]
name = "xc2bit"
version = "0.1.0"
edition = "2021"
publish = false

[dependencies]
jedec = "*"
bitvec = "*"
