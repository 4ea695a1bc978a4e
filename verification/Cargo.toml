[package]
name = "bluenrg"
version = "0.1.0"
edition = "2021"
publish = false

[dependencies]
byteorder = { version = "1", default-features = false }
nb = "1"
bluetooth-hci = "0.1"
