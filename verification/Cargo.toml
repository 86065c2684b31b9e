[package]
name = "espflash_bridge"
version = "0.1.0"
edition = "2021"
publish = false

[dependencies]
libc = "0.2"
log = "0.4"
miette = "7"
serialport = { version = "4", default-features = false }
ureq = { version = "3", default-features = false }
