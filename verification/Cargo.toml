[package]
name = "ethercat_hal"
version = "0.1.0"
edition = "2021"
publish = false

[dependencies]
ethercrab = "=0.7.1"
anyhow = "=1.0.104"
bitvec = "=1.1.1"
libc = "0.2"
log = "0.4"
smol = "2"
