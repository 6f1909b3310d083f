[package]
name = "reflex"
version = "0.1.0"
edition = "2021"
publish = false

[dependencies]
byteorder = "1"
bytes = "0.4"
futures = "0.1"
tokio = "0.1"
mio = "0.6"
nix = "0.16"
libc = "0.2"
