[package]
name = "http_conn"
version = "0.1.0"
edition = "2021"
publish = false

[dependencies]
rotor = "*"
log = "0.4"
