[package]
name = "peer_discovery"
version = "0.1.0"
edition = "2021"
publish = false

[dependencies]
act-zero = "=0.4.0"
async-nats = "0.9"
async-trait = "=0.1.92"
log = "=0.4.34"
