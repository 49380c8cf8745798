[package]
name = "fs_keygen"
version = "0.1.0"
edition = "2021"
publish = false

[dependencies]
aes = "*"
cmac = "*"
getrandom = "*"
sgx_types = "*"
