[package]
name = "ejdb"
version = "0.1.0"
edition = "2021"
publish = false

[dependencies]
bson = "=0.1.5"
libc = "=0.2.191"
ejdb-sys = "=0.1.0"
