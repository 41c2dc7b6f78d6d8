[package]
name = "mdns"
version = "0.1.0"
edition = "2021"
publish = false

[dependencies]
dns-parser = "0.8"
async-std = "1"
async-stream = "0.3"
futures-core = "0.3"
log = "0.4"
net2 = "0.2"
