[package]
name = "kubos_apis"
version = "0.1.0"
edition = "2021"
publish = false

[dependencies]
bitflags = "1"
byteorder = "1"
chrono = "0.4"
crc16 = "0.4"
failure = "0.1"
libc = "0.2"
nom = "4"
serial = "0.4"
