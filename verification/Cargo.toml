[package]
name = "ntp-toolbox"
version = "0.1.0"
edition = "2021"
publish = false

[dependencies]
byteorder = "1"
chrono = "0.4"
rsntp = "*"
