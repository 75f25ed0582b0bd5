[package]
name = "chisel"
version = "0.1.0"
edition = "2021"
publish = false

[dependencies]
libchisel = "=0.2.0"
parity-wasm = "0.35"
serde_yaml = "=0.8.26"
clap = "=2.34.0"
