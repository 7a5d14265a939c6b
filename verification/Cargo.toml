[package]
name = "ds_driver"
version = "0.1.0"
edition = "2021"
publish = false

[dependencies]
nb = "1.1"
log = "0.4"
