[package]
name = "joining_peer"
version = "0.1.0"
edition = "2021"
publish = false

[dependencies]
bytes = "0.5"
fxhash = "0.2"
log = "0.4"
