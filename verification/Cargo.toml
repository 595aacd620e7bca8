[package]
name = "bitcoincore_zmq"
version = "0.1.0"
edition = "2021"
publish = false

[dependencies]
hex = "0.4"
zmq = "0.10"
url = "2"
ctrlc = "3"
anyhow = "1"
