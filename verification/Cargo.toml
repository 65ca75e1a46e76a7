[package]
name = "init_supervisor"
version = "0.1.0"
edition = "2021"
publish = false

[dependencies]
clap = "2"
crossbeam-channel = "0.5"
libc = "0.2"
serde = "1"
serde_derive = "1"
signal-hook = "0.1"
toml = "0.5"
