[package]
name = "canlib"
version = "0.1.0"
edition = "2021"
publish = false

[dependencies]
embedded-can = "0.4"
nb = "1"
thiserror = "1"
libloading = "0.8"
