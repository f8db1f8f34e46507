[package]
name = "herkulex_bus"
version = "0.1.0"
edition = "2021"
publish = false

[dependencies]
drs-0x01 = "*"
