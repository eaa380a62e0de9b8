[package]
name = "visionfive2_sd"
version = "0.1.0"
edition = "2021"
publish = false

[dependencies]
bit_field = "0.10"
bit-struct = "*"
log = "0.4"
preprint = "*"
