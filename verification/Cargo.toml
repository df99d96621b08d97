[package]
name = "cove_backup"
version = "0.1.0"
edition = "2021"
publish = false

[dependencies]
memchr = "*"
hex = "*"
rand = "*"
jiff = "*"
bip39 = "*"
flume = "*"
once_cell = "*"
parking_lot = "*"
tracing = "*"
zeroize = "*"
