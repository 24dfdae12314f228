[package]
name = "microservices"
version = "0.1.0"
edition = "2021"
publish = false

[dependencies]
amplify = "=3.14.2"
colored = "=2.2.0"
crossbeam-channel = "=0.5.17"
internet2 = { version = "=0.9.0", features = ["zmq", "keygen"] }
lightning_encoding = "=0.9.3"
log = "=0.4.34"
nix = "=0.26.4"
strict_encoding = "=0.9.0"
zmq2 = "=0.5.0"
