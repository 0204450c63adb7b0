[package]
name = "dash_handshake"
version = "0.1.0"
edition = "2021"
publish = false

[dependencies]
async-std = "1"
byteorder = "1"
rand = "0.8"
sha2 = "0.10"
