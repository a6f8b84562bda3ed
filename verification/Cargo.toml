[package]
name = "quic_codec"
version = "0.1.0"
edition = "2021"
publish = false

[dependencies]
bytes = "0.4"
rand = "0.5"
failure = "0.1"
failure_derive = "0.1"
