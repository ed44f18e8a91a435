[package]
name = "thermo_esp"
version = "0.1.0"
edition = "2021"
publish = false

[dependencies]
heapless = "0.8"
embassy-sync = "*"
embassy-time = "*"
embassy-executor = "*"
log = "*"
