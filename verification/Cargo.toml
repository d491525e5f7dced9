[package]
name = "session_service"
version = "0.1.0"
edition = "2021"
publish = false

[dependencies]
sails-rs = "=0.10.4"
gstd = "1"
schnorrkel = "=0.11.5"
parity-scale-codec = "3"
