[package]
name = "script_runner"
version = "0.1.0"
edition = "2021"
publish = false

[dependencies]
alloy-primitives = { version = "*", features = ["rlp"] }
eyre = "0.6"
yansi = "0.5"
