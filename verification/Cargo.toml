[package]
name = "userfaultfd"
version = "0.1.0"
edition = "2021"
publish = false

[dependencies]
mio = "0.6"
sc = "0.2"
