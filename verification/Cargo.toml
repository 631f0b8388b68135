[package]
name = "unix_ipc"
version = "0.1.0"
edition = "2021"
publish = false

[dependencies]
libc = "0.2"
dirs = "5"
simple-signal = "1"
serde = "1"
serde_derive = "1"
bincode = "1"
lazy_static = "1"
