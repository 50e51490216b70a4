[package]
name = "svsm_cpu"
version = "0.1.0"
edition = "2021"
publish = false

[dependencies]
bitflags = "2"
lazy_static = "1"
log = "0.4"
