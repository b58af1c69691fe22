[package]
name = "rcon"
version = "0.1.0"
edition = "2021"

[dependencies]
anyhow = "1"
bytes = "1"
num-derive = "0.4"
num-traits = "0.2"
thiserror = "1"
