[package]
name = "imap_demux"
version = "0.1.0"
edition = "2021"
publish = false

[dependencies]
imap-proto = "*"
async-std = "*"
futures = "*"
