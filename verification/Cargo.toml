[package]
name = "randombytes"
version = "0.1.0"
edition = "2021"
publish = false

[dependencies]
libhydrogen-sys = "*"
