[package]
name = "vampirc_io"
version = "0.1.0"
edition = "2021"
publish = false

[dependencies]
vampirc-uci = "*"
futures = "0.3"
crossbeam = "0.8"
async-std = "1"
