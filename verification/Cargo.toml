[package]
name = "proxy_sdk"
version = "0.1.0"
edition = "2021"
publish = false

[dependencies]
prost = "0.11"
prost-types = "0.11"
log = "0.4"
once_cell = "1"
lazy_static = "1.4"
libloading = "0.8"
getrandom = { version = "0.2", features = ["custom"] }
wasi = "0.11"
