[package]
name = "field_gateway"
version = "0.1.0"
edition = "2021"
publish = false

[dependencies]
time = "0.3"
serialport = { version = "4", default-features = false }
configparser = "3"
