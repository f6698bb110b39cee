[package]
name = "cufile"
version = "0.1.0"
edition = "2021"
publish = false

[dependencies]
cufile-sys = "*"
thiserror = "*"
