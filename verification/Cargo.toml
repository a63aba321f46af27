[package]
name = "sidex"
version = "0.1.0"
edition = "2021"
publish = false

[dependencies]
tiny_http = "0.12"
log = "0.4"
