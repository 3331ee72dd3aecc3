[package]
name = "smush"
version = "0.1.0"
edition = "2021"
publish = false

[dependencies]
flate2 = "1"
lzma-rs = "0.3"
xz2 = "0.1"
bs58 = "0.5"
sha2 = "0.10"
filebuffer = "*"
