[package]
name = "line_search"
version = "0.1.0"
edition = "2021"
publish = false

[dependencies]
grep = "=0.4.1"
napi = "3"
napi-derive = "3"
