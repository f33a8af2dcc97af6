[package]
name = "ftd2xx"
version = "0.1.0"
edition = "2021"
publish = false

[dependencies]
ftd2xx-sys = "=0.1.0"
